//! Inbound events, reduced to what the worker and its plugins read.

use vstd::prelude::*;

verus! {

/// A user as an event names it.
#[derive(Debug, Clone, PartialEq, Eq)]
pub struct UserRef {
    pub id: u64,
    pub name: String,
    pub bot: bool,
}

/// One name/value field of an embed.
#[derive(Debug, Clone, PartialEq, Eq)]
pub struct EmbedField {
    pub name: String,
    pub value: String,
}

/// A rich embed attached to a message.
#[derive(Debug, Clone, PartialEq, Eq)]
pub struct Embed {
    pub title: Option<String>,
    pub fields: Vec<EmbedField>,
}

/// A message that was posted.
#[derive(Debug, Clone, PartialEq, Eq)]
pub struct ChatMessage {
    pub id: u64,
    pub channel_id: u64,
    pub guild_id: Option<u64>,
    pub author: UserRef,
    pub content: String,
    /// Seconds since the Unix epoch at which the message was sent.
    pub timestamp: i64,
    pub embeds: Vec<Embed>,
    pub mentions: Vec<UserRef>,
    /// `None` when the message answers no other message; otherwise the
    /// identifier of the answered message, where it is known.
    pub reference: Option<Option<u64>>,
}

/// A reaction that was added to a message.
#[derive(Debug, Clone, PartialEq, Eq)]
pub struct Reaction {
    pub guild_id: Option<u64>,
    pub channel_id: u64,
    pub message_id: u64,
    /// Whether the reacting member is a bot, where the member is known.
    pub member_bot: Option<bool>,
}

/// An inbound domain event.
#[allow(inconsistent_fields)]
#[derive(Debug, Clone, PartialEq, Eq)]
pub enum Event {
    MessageCreate(ChatMessage),
    MessageUpdate { guild_id: Option<u64> },
    GuildUpdate { id: u64 },
    GuildCreate { id: u64 },
    GuildDelete { id: u64, unavailable: bool },
    MemberAdd { guild_id: u64, user: UserRef },
    MemberRemove { guild_id: u64, user: UserRef },
    InviteCreate { guild_id: u64, code: String },
    InviteDelete { guild_id: u64, code: String },
    ReactionAdd(Reaction),
    ShardConnected,
    MemberUpdate { guild_id: u64 },
    /// Any kind the worker has no use for.
    Other,
}

impl Event {
    /// The guild against which plugin enablement is evaluated for this event,
    /// or `None` where the event is not dispatched at all: a direct message, a
    /// connection notice, a member update, an unknown kind.
    pub open spec fn spec_scope(self) -> Option<u64> {
        match self {
            Event::MessageCreate(m) => m.guild_id,
            Event::MessageUpdate { guild_id } => guild_id,
            Event::GuildUpdate { id } => Some(id),
            Event::GuildCreate { id } => Some(id),
            Event::GuildDelete { id, .. } => Some(id),
            Event::MemberAdd { guild_id, .. } => Some(guild_id),
            Event::MemberRemove { guild_id, .. } => Some(guild_id),
            Event::InviteCreate { guild_id, .. } => Some(guild_id),
            Event::InviteDelete { guild_id, .. } => Some(guild_id),
            Event::ReactionAdd(r) => r.guild_id,
            Event::ShardConnected => None,
            Event::MemberUpdate { .. } => None,
            Event::Other => None,
        }
    }

    /// Whether the worker knows the kind at all. An unknown kind is a no-op
    /// that is only noted at low severity.
    pub open spec fn spec_known(self) -> bool {
        !(self is Other)
    }

    /// Computes [`Event::spec_scope`].
    pub fn scope(&self) -> (guild: Option<u64>)
        ensures
            guild == self.spec_scope(),
    {
        match self {
            Event::MessageCreate(m) => m.guild_id,
            Event::MessageUpdate { guild_id } => *guild_id,
            Event::GuildUpdate { id } => Some(*id),
            Event::GuildCreate { id } => Some(*id),
            Event::GuildDelete { id, .. } => Some(*id),
            Event::MemberAdd { guild_id, .. } => Some(*guild_id),
            Event::MemberRemove { guild_id, .. } => Some(*guild_id),
            Event::InviteCreate { guild_id, .. } => Some(*guild_id),
            Event::InviteDelete { guild_id, .. } => Some(*guild_id),
            Event::ReactionAdd(r) => r.guild_id,
            Event::ShardConnected => None,
            Event::MemberUpdate { .. } => None,
            Event::Other => None,
        }
    }

    /// Computes [`Event::spec_known`].
    pub fn is_known(&self) -> (known: bool)
        ensures
            known == self.spec_known(),
    {
        match self {
            Event::Other => false,
            _ => true,
        }
    }
}

} // verus!
