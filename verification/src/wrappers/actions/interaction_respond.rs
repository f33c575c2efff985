//! Responses to interactions.
//!
//! A response either carries a message, whose flags say whether only the
//! invoking user sees it, whether its embeds are hidden and whether it
//! notifies, or defers the message to later.

use vstd::prelude::*;

verus! {

/// `MessageFlags::EPHEMERAL.bits()`: the flag that shows a message only to the
/// user who triggered the interaction, bit 6.
#[verifier::external_body]
fn ephemeral_flag_bits() -> (bits: u64)
    ensures
        bits == 0x40,
{
    twilight_model::channel::message::MessageFlags::EPHEMERAL.bits()
}

/// `MessageFlags::SUPPRESS_EMBEDS.bits()`: the flag that hides a message's
/// embeds, bit 2.
#[verifier::external_body]
fn suppress_embeds_flag_bits() -> (bits: u64)
    ensures
        bits == 0x4,
{
    twilight_model::channel::message::MessageFlags::SUPPRESS_EMBEDS.bits()
}

/// `MessageFlags::SUPPRESS_NOTIFICATIONS.bits()`: the flag that keeps a
/// message from sending push and desktop notifications, bit 12.
#[verifier::external_body]
fn suppress_notifications_flag_bits() -> (bits: u64)
    ensures
        bits == 0x1000,
{
    twilight_model::channel::message::MessageFlags::SUPPRESS_NOTIFICATIONS.bits()
}

/// The message flags of a response: the sum of the flags that are set, each
/// flag being a distinct bit.
pub open spec fn response_flag_bits(ephemeral: bool, no_embeds: bool, no_notifications: bool) -> u64 {
    ((if ephemeral {
        0x40u64
    } else {
        0u64
    }) + (if no_embeds {
        0x4u64
    } else {
        0u64
    }) + (if no_notifications {
        0x1000u64
    } else {
        0u64
    })) as u64
}

/// Each flag bit of a response is set exactly when its setting is on, and no
/// other bit is set.
pub proof fn lemma_flags_follow_settings(ephemeral: bool, no_embeds: bool, no_notifications: bool)
    ensures
        ({
            let bits = response_flag_bits(ephemeral, no_embeds, no_notifications);
            &&& (bits & 0x40u64 != 0) == ephemeral
            &&& (bits & 0x4u64 != 0) == no_embeds
            &&& (bits & 0x1000u64 != 0) == no_notifications
            &&& bits & !0x1044u64 == 0
        }),
{
    let e: u64 = if ephemeral { 0x40 } else { 0 };
    let s: u64 = if no_embeds { 0x4 } else { 0 };
    let n: u64 = if no_notifications { 0x1000 } else { 0 };
    let bits = response_flag_bits(ephemeral, no_embeds, no_notifications);
    assert(bits == e + s + n);
    assert(((bits & 0x40u64 != 0) == (e != 0)) && ((bits & 0x4u64 != 0) == (s != 0)) && ((bits
        & 0x1000u64 != 0) == (n != 0)) && (bits & !0x1044u64 == 0)) by (bit_vector)
        requires
            e == 0 || e == 0x40,
            s == 0 || s == 0x4,
            n == 0 || n == 0x1000,
            bits == e + s + n,
    ;
}

/// A builder for responding to an interaction with a message.
pub struct InteractionRespondWithMessage {
    pub application_id: u64,
    pub interaction_id: u64,
    pub interaction_token: String,
    pub content: String,
    pub is_ephemeral: bool,
    pub is_suppressing_embeds: bool,
    pub is_suppressing_notifications: bool,
}

impl InteractionRespondWithMessage {
    /// A response with the given content, visible to everyone, with embeds
    /// and notifications.
    pub fn new(
        application_id: u64,
        interaction_id: u64,
        interaction_token: String,
        content: &str,
    ) -> (response: Self)
        ensures
            response.application_id == application_id,
            response.interaction_id == interaction_id,
            response.interaction_token == interaction_token,
            response.content@ == content@,
            !response.is_ephemeral,
            !response.is_suppressing_embeds,
            !response.is_suppressing_notifications,
    {
        InteractionRespondWithMessage {
            application_id,
            interaction_id,
            interaction_token,
            content: content.to_string(),
            is_ephemeral: false,
            is_suppressing_embeds: false,
            is_suppressing_notifications: false,
        }
    }

    /// Makes the sent message only be visible to the user that triggered the interaction.
    pub fn ephemeral(self) -> (response: Self)
        ensures
            response == (InteractionRespondWithMessage { is_ephemeral: true, ..self }),
    {
        let mut response = self;
        response.is_ephemeral = true;
        response
    }

    /// Prevents any embeds from showing to users.
    pub fn no_embeds(self) -> (response: Self)
        ensures
            response == (InteractionRespondWithMessage { is_suppressing_embeds: true, ..self }),
    {
        let mut response = self;
        response.is_suppressing_embeds = true;
        response
    }

    /// Prevents desktop and push notifications from being sent to users about this message.
    pub fn no_notifications(self) -> (response: Self)
        ensures
            response == (InteractionRespondWithMessage { is_suppressing_notifications: true, ..self }),
    {
        let mut response = self;
        response.is_suppressing_notifications = true;
        response
    }

    /// The message flags the response is sent with.
    pub fn message_flags(&self) -> (bits: u64)
        ensures
            bits == response_flag_bits(
                self.is_ephemeral,
                self.is_suppressing_embeds,
                self.is_suppressing_notifications,
            ),
    {
        let mut flags: u64 = 0;
        if self.is_ephemeral {
            let bit = ephemeral_flag_bits();
            assert((0u64 | 0x40u64) == 0x40u64) by (bit_vector);
            flags = flags | bit;
        }
        assert(flags == (if self.is_ephemeral { 0x40u64 } else { 0u64 }));
        if self.is_suppressing_embeds {
            let bit = suppress_embeds_flag_bits();
            assert(forall|f: u64| (f == 0u64 || f == 0x40u64) ==> (f | 0x4u64) == f + 0x4u64)
                by (bit_vector);
            flags = flags | bit;
        }
        assert(flags == (if self.is_ephemeral { 0x40u64 } else { 0u64 }) + (if self.is_suppressing_embeds { 0x4u64 } else { 0u64 }));
        if self.is_suppressing_notifications {
            let bit = suppress_notifications_flag_bits();
            assert(forall|f: u64|
                (f == 0u64 || f == 0x40u64 || f == 0x4u64 || f == 0x44u64) ==> (f | 0x1000u64) == f
                    + 0x1000u64) by (bit_vector);
            flags = flags | bit;
        }
        flags
    }
}

/// A builder for responding to an interaction with deferral.
pub struct InteractionRespondWithDeferral {
    pub application_id: u64,
    pub interaction_id: u64,
    pub interaction_token: String,
}

impl InteractionRespondWithDeferral {
    /// A deferral response to the given interaction.
    pub fn new(application_id: u64, interaction_id: u64, interaction_token: String) -> (response:
        Self)
        ensures
            response == (InteractionRespondWithDeferral {
                application_id,
                interaction_id,
                interaction_token,
            }),
    {
        InteractionRespondWithDeferral { application_id, interaction_id, interaction_token }
    }
}

} // verus!
