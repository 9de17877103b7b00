//! The outbound commands that a completion task asks its caller to carry
//! out, and the texts that go into them.

use crate::text::{decimal_digits, push_u64};
use vstd::prelude::*;
use vstd::string::StringExecFns;

verus! {

/// What went wrong at the edge, for the log. Nothing here is retried.
#[derive(Clone, Copy, PartialEq, Eq, Structural, Debug)]
pub enum Problem {
    /// The members of the campaign's ephemeral set could not be read; the
    /// task goes on as if the set were empty.
    MembersUnavailable,
    /// The campaign's message could not be edited.
    EditFailed,
    /// A message could not be posted.
    PostFailed,
    /// Messages could not be deleted.
    DeleteFailed,
}

/// Why a completion task gave up. A fault ends that one task and nothing else.
#[derive(Clone, Copy, PartialEq, Eq, Structural, Debug)]
pub enum Fault {
    /// The record lacks an identifier that the completion needs.
    MalformedRecord,
    /// A member of the campaign's set is no user identifier.
    MalformedMember,
    /// The ephemeral store refused a command that must not fail.
    StoreCommandFailed,
    /// The end message could not be rendered, or rendered to nothing.
    RenderFailed,
}

/// What the caller reports back to a completion task.
#[derive(Debug, PartialEq, Eq)]
pub enum Reply {
    /// The sleep is over.
    Woken,
    /// The members of the ephemeral set, or `None` where they could not be read.
    Members(Option<Vec<String>>),
    /// Whether the expiry was set.
    Expired(bool),
    /// Whether the message was edited.
    Edited(bool),
    /// The rendered end message, or `None` where rendering failed or gave no text.
    Rendered(Option<String>),
    /// The identifier of the posted message, or `None` where posting failed.
    Posted(Option<u64>),
    /// Whether the messages were deleted.
    Deleted(bool),
    /// Whether the ephemeral set was deleted.
    Cleared(bool),
}

/// One outbound command.
#[allow(inconsistent_fields)]
#[derive(Debug, PartialEq, Eq)]
pub enum Effect {
    /// Wait for `seconds` seconds, then report back.
    Sleep { seconds: u64 },
    /// List the members of the ephemeral set `key`.
    FetchMembers { key: String },
    /// Let the ephemeral set `key` expire after `seconds` seconds.
    Expire { key: String, seconds: u64 },
    /// Delete the ephemeral set `key`.
    DeleteKey { key: String },
    /// Replace the embed of a message by one with this title and text, and
    /// remove the message's components.
    EditMessage { channel: u64, message: u64, title: String, description: String },
    /// Post `content` with a link button to `jump_url`; only the users in
    /// `mentions` may be notified. The result is not looked at.
    Announce { channel: u64, content: String, jump_url: String, mentions: Vec<u64> },
    /// Post `content` and report the identifier of the new message.
    Post { channel: u64, content: String },
    /// Delete one message. The result is not looked at.
    DeleteMessage { channel: u64, message: u64 },
    /// Delete several messages at once.
    DeleteMessages { channel: u64, messages: Vec<u64> },
    /// Render the end-message template with these variables.
    Render { template: String, title: String, host: String, channel: String, link: String },
    /// Write `problem` to the log.
    Log { problem: Problem },
    /// Give the task up and log `fault` as an error.
    Abort { fault: Fault },
}

/// An [`Effect`] as specifications see it.
#[allow(inconsistent_fields)]
pub enum EffectView {
    Sleep { seconds: u64 },
    FetchMembers { key: Seq<char> },
    Expire { key: Seq<char>, seconds: u64 },
    DeleteKey { key: Seq<char> },
    EditMessage { channel: u64, message: u64, title: Seq<char>, description: Seq<char> },
    Announce { channel: u64, content: Seq<char>, jump_url: Seq<char>, mentions: Seq<u64> },
    Post { channel: u64, content: Seq<char> },
    DeleteMessage { channel: u64, message: u64 },
    DeleteMessages { channel: u64, messages: Seq<u64> },
    Render {
        template: Seq<char>,
        title: Seq<char>,
        host: Seq<char>,
        channel: Seq<char>,
        link: Seq<char>,
    },
    Log { problem: Problem },
    Abort { fault: Fault },
}

impl DeepView for Effect {
    type V = EffectView;

    open spec fn deep_view(&self) -> EffectView {
        match *self {
            Effect::Sleep { seconds } => EffectView::Sleep { seconds },
            Effect::FetchMembers { key } => EffectView::FetchMembers { key: key@ },
            Effect::Expire { key, seconds } => EffectView::Expire { key: key@, seconds },
            Effect::DeleteKey { key } => EffectView::DeleteKey { key: key@ },
            Effect::EditMessage { channel, message, title, description } => EffectView::EditMessage {
                channel,
                message,
                title: title@,
                description: description@,
            },
            Effect::Announce { channel, content, jump_url, mentions } => EffectView::Announce {
                channel,
                content: content@,
                jump_url: jump_url@,
                mentions: mentions@,
            },
            Effect::Post { channel, content } => EffectView::Post { channel, content: content@ },
            Effect::DeleteMessage { channel, message } => EffectView::DeleteMessage {
                channel,
                message,
            },
            Effect::DeleteMessages { channel, messages } => EffectView::DeleteMessages {
                channel,
                messages: messages@,
            },
            Effect::Render { template, title, host, channel, link } => EffectView::Render {
                template: template@,
                title: title@,
                host: host@,
                channel: channel@,
                link: link@,
            },
            Effect::Log { problem } => EffectView::Log { problem },
            Effect::Abort { fault } => EffectView::Abort { fault },
        }
    }
}

impl EffectView {
    /// Whether the caller answers the command with a [`Reply`]: a sleep, a
    /// read, a write whose result matters. An announcement, the deletion of
    /// one message, a log entry and an abort are answered by nothing.
    pub open spec fn expects_reply(self) -> bool {
        match self {
            EffectView::Announce { .. } => false,
            EffectView::DeleteMessage { .. } => false,
            EffectView::Log { .. } => false,
            EffectView::Abort { .. } => false,
            _ => true,
        }
    }
}

/// At most one of `effects` is answered with a reply, and that one is the
/// last: a task never has two requests under way.
pub open spec fn one_request_at_a_time(effects: Seq<EffectView>) -> bool {
    forall|k: int| 0 <= k < effects.len() - 1 ==> !(#[trigger] effects[k]).expects_reply()
}

impl Effect {
    /// Whether the caller answers the command with a [`Reply`].
    pub fn expects_reply(&self) -> (answer: bool)
        ensures
            answer == self.deep_view().expects_reply(),
    {
        match self {
            Effect::Announce { .. } => false,
            Effect::DeleteMessage { .. } => false,
            Effect::Log { .. } => false,
            Effect::Abort { .. } => false,
            _ => true,
        }
    }
}

/// The members that a reply about an ephemeral set stands for: none where
/// the set could not be read.
pub open spec fn listed_members(members: Option<Vec<String>>) -> Seq<Seq<char>> {
    match members {
        Some(listed) => listed.deep_view(),
        None => Seq::empty(),
    }
}

/// The warning that goes with a reply about the members of a set.
pub open spec fn member_warnings(members: Option<Vec<String>>) -> Seq<EffectView> {
    match members {
        Some(_) => Seq::empty(),
        None => seq![EffectView::Log { problem: Problem::MembersUnavailable }],
    }
}

/// The tag that notifies the user `id`.
pub open spec fn user_mention(id: u64) -> Seq<char> {
    "<@"@ + decimal_digits(id as nat) + ">"@
}

/// The tag that links the channel `id`.
pub open spec fn channel_mention(id: u64) -> Seq<char> {
    "<#"@ + decimal_digits(id as nat) + ">"@
}

/// The address of a message in the chat client.
pub open spec fn jump_url(guild: u64, channel: u64, message: u64) -> Seq<char> {
    "https://discord.com/channels/"@ + decimal_digits(guild as nat) + "/"@ + decimal_digits(
        channel as nat,
    ) + "/"@ + decimal_digits(message as nat)
}

/// Appends [`user_mention`] of `id` to `out`.
pub fn push_user_mention(out: &mut String, id: u64)
    ensures
        final(out)@ == old(out)@ + user_mention(id),
{
    out.append("<@");
    push_u64(out, id);
    out.append(">");
    assert(final(out)@ =~= old(out)@ + user_mention(id));
}

/// Builds [`channel_mention`] of `id`.
pub fn make_channel_mention(id: u64) -> (tag: String)
    ensures
        tag@ == channel_mention(id),
{
    let mut out = String::from_str("<#");
    push_u64(&mut out, id);
    out.append(">");
    assert(out@ =~= channel_mention(id));
    out
}

/// Builds [`jump_url`].
pub fn make_jump_url(guild: u64, channel: u64, message: u64) -> (url: String)
    ensures
        url@ == jump_url(guild, channel, message),
{
    let mut out = String::from_str("https://discord.com/channels/");
    push_u64(&mut out, guild);
    out.append("/");
    push_u64(&mut out, channel);
    out.append("/");
    push_u64(&mut out, message);
    assert(out@ =~= jump_url(guild, channel, message));
    out
}

} // verus!
