//! The gateway event categories the bot subscribes to.
//!
//! A subscription is serenity's `GatewayIntents`, a set of flags kept in a
//! `u64`, one bit per category. The type is opaque here: [`intent_flags`] names
//! the flags a value holds, and the trusted items below say what serenity's
//! constants and its `union` hold.

use serenity::model::gateway::GatewayIntents;
use vstd::prelude::*;

verus! {

#[verifier::external_type_specification]
#[verifier::external_body]
pub struct ExGatewayIntents(GatewayIntents);

/// The flags that a subscription holds, each as the single bit that stands
/// for its category.
pub uninterp spec fn intent_flags(intents: GatewayIntents) -> Set<u64>;

/// Flag of the category of guild metadata.
pub const GUILDS: u64 = 1;

/// Flag of the category of messages sent in guild channels.
pub const GUILD_MESSAGES: u64 = 1 << 9;

/// Flag of the category of messages sent in direct channels.
pub const DIRECT_MESSAGES: u64 = 1 << 12;

/// Flag of the category that carries the text of messages.
pub const MESSAGE_CONTENT: u64 = 1 << 15;

/// The four categories the bot needs in order to read messages.
pub open spec fn subscribed_flags() -> Set<u64> {
    set![GUILD_MESSAGES, DIRECT_MESSAGES, GUILDS, MESSAGE_CONTENT]
}

/// Trusted: serenity's constant `GatewayIntents::GUILDS` holds the one flag
/// that it is declared with, `1`.
#[verifier::external_body]
fn guilds() -> (flag: GatewayIntents)
    ensures
        intent_flags(flag) == set![GUILDS],
{
    GatewayIntents::GUILDS
}

/// Trusted: serenity's constant `GatewayIntents::GUILD_MESSAGES` holds the one
/// flag that it is declared with, `1 << 9`.
#[verifier::external_body]
fn guild_messages() -> (flag: GatewayIntents)
    ensures
        intent_flags(flag) == set![GUILD_MESSAGES],
{
    GatewayIntents::GUILD_MESSAGES
}

/// Trusted: serenity's constant `GatewayIntents::DIRECT_MESSAGES` holds the
/// one flag that it is declared with, `1 << 12`.
#[verifier::external_body]
fn direct_messages() -> (flag: GatewayIntents)
    ensures
        intent_flags(flag) == set![DIRECT_MESSAGES],
{
    GatewayIntents::DIRECT_MESSAGES
}

/// Trusted: serenity's constant `GatewayIntents::MESSAGE_CONTENT` holds the
/// one flag that it is declared with, `1 << 15`.
#[verifier::external_body]
fn message_content() -> (flag: GatewayIntents)
    ensures
        intent_flags(flag) == set![MESSAGE_CONTENT],
{
    GatewayIntents::MESSAGE_CONTENT
}

/// Trusted: `GatewayIntents::union` returns the subscription that holds every
/// flag of either operand and no other; it ors the stored bits.
pub assume_specification[ GatewayIntents::union ](
    a: GatewayIntents,
    b: GatewayIntents,
) -> (both: GatewayIntents)
    ensures
        intent_flags(both) == intent_flags(a).union(intent_flags(b)),
;

/// The subscription the client is built with: guild messages, direct
/// messages, guild metadata and message content, and no other category.
pub fn subscribed_intents() -> (intents: GatewayIntents)
    ensures
        intent_flags(intents) == subscribed_flags(),
{
    guild_messages().union(direct_messages()).union(guilds()).union(message_content())
}

} // verus!
