//! The invite-counting plugin: which invite a new member used, and what
//! that changes in the inviter's tally.
//!
//! The plugin talks to the chat service and to the store in turn. It is
//! written as a state machine: [`InviteCounting::on_event`] and [`step`] say
//! which request comes next, the caller sends it and hands the answer back.

use crate::event::Event;
use crate::plugin::Plugin;
use crate::text::{decimal_digits, push_u64};
use vstd::prelude::*;

verus! {

/// The plugin that tracks the invites of a guild.
#[derive(Debug, Clone, Copy)]
pub struct InviteCounting {}

impl Plugin for InviteCounting {
    open spec fn spec_name(&self) -> Seq<char> {
        "invite_counting"@
    }

    fn name(&self) -> (name: &'static str) {
        "invite_counting"
    }

    fn description(&self) -> (text: &'static str) {
        "Tracks the invites for a server"
    }

    open spec fn spec_description(&self) -> Seq<char> {
        "Tracks the invites for a server"@
    }
}

impl Default for InviteCounting {
    fn default() -> Self {
        InviteCounting {  }
    }
}

/// What the plugin reads of an invite: its code and how often it was used.
#[derive(Debug, PartialEq, Eq)]
pub struct InviteUse {
    pub code: String,
    pub uses: Option<u64>,
}

/// An [`InviteUse`] as specifications see it.
pub struct InviteUseView {
    pub code: Seq<char>,
    pub uses: Option<u64>,
}

impl DeepView for InviteUse {
    type V = InviteUseView;

    open spec fn deep_view(&self) -> InviteUseView {
        InviteUseView { code: self.code@, uses: self.uses }
    }
}

/// Why the plugin cannot go on. A fault ends the handling of the one event.
#[derive(Clone, Copy, PartialEq, Eq, Structural, Debug)]
pub enum InviteFault {
    /// A stored invite that had to be compared carries no use count.
    MissingUses,
    /// The invite that was used names no inviter.
    MissingInviter,
    /// An invite in the inviter's record names no inviter.
    MissingRecordedInviter,
    /// The inviter's record could not be opened.
    MissingRecord,
}

/// The position of the first stored invite at or after `from` that carries
/// `code`, or the number of stored invites where there is none.
pub open spec fn seek(cached: Seq<InviteUseView>, from: int, code: Seq<char>) -> int
    decreases cached.len() - from,
{
    if from < 0 || from >= cached.len() {
        cached.len() as int
    } else if cached[from].code == code {
        from
    } else {
        seek(cached, from + 1, code)
    }
}

/// The fresh invites, from position `at` on, whose use count is one above
/// the stored count of the same code. The stored invites are read once,
/// front to back, starting at `from`: the search for a code goes on where
/// the search for the code before it stopped, and a code that is not found
/// uses the stored invites up. An invite without a use count counts as
/// unused; a code that is not found counts as stored with no use.
///
/// `None` where a stored invite that is found carries no use count.
pub open spec fn used_from(
    fresh: Seq<InviteUseView>,
    cached: Seq<InviteUseView>,
    at: int,
    from: int,
) -> Option<Seq<int>>
    decreases fresh.len() - at,
{
    if at < 0 || at >= fresh.len() {
        Some(Seq::empty())
    } else {
        let hit = seek(cached, from, fresh[at].code);
        if hit < cached.len() && cached[hit].uses is None {
            None
        } else {
            let baseline: int = if hit < cached.len() {
                cached[hit].uses->0 as int
            } else {
                0
            };
            let now: int = match fresh[at].uses {
                Some(uses) => uses as int,
                None => 0,
            };
            match used_from(fresh, cached, at + 1, hit + 1) {
                None => None,
                Some(later) => Some(
                    if now == baseline + 1 {
                        seq![at] + later
                    } else {
                        later
                    },
                ),
            }
        }
    }
}

/// The invite that the new member used: the one fresh invite whose use count
/// went up by one. `Ok(None)` where no invite or more than one qualifies.
pub open spec fn used_invite(fresh: Seq<InviteUseView>, cached: Seq<InviteUseView>) -> Result<
    Option<int>,
    InviteFault,
> {
    match used_from(fresh, cached, 0, 0) {
        None => Err(InviteFault::MissingUses),
        Some(possible) => if possible.len() == 1 {
            Ok(Some(possible[0]))
        } else {
            Ok(None)
        },
    }
}

/// A search that starts behind the stored invites finds nothing, wherever
/// behind them it starts.
proof fn lemma_used_from_exhausted(
    fresh: Seq<InviteUseView>,
    cached: Seq<InviteUseView>,
    at: int,
    from: int,
    other: int,
)
    requires
        from >= cached.len(),
        other >= cached.len(),
    ensures
        used_from(fresh, cached, at, from) == used_from(fresh, cached, at, other),
{
    if 0 <= at < fresh.len() {
        assert(seek(cached, from, fresh[at].code) == cached.len());
        assert(seek(cached, other, fresh[at].code) == cached.len());
    }
}

/// Finds the invite that a new member used, as [`used_invite`] says.
pub fn find_used_invite(fresh: &Vec<InviteUse>, cached: &Vec<InviteUse>) -> (used: Result<
    Option<usize>,
    InviteFault,
>)
    ensures
        match used {
            Ok(Some(i)) => used_invite(fresh.deep_view(), cached.deep_view()) == Ok::<
                Option<int>,
                InviteFault,
            >(Some(i as int)) && i < fresh@.len(),
            Ok(None) => used_invite(fresh.deep_view(), cached.deep_view()) == Ok::<
                Option<int>,
                InviteFault,
            >(None),
            Err(fault) => used_invite(fresh.deep_view(), cached.deep_view()) == Err::<
                Option<int>,
                InviteFault,
            >(fault),
        },
{
    let ghost new = fresh.deep_view();
    let ghost old_ones = cached.deep_view();
    let mut count: usize = 0;
    let mut first: usize = 0;
    let ghost mut found: Seq<int> = Seq::empty();
    let mut at: usize = 0;
    let mut from: usize = 0;
    while at < fresh.len()
        invariant
            new == fresh.deep_view(),
            old_ones == cached.deep_view(),
            at <= fresh@.len(),
            from <= cached@.len(),
            count == found.len(),
            count <= at,
            count > 0 ==> first == found[0] && first < at,
            used_from(new, old_ones, 0, 0) == match used_from(new, old_ones, at as int, from as int) {
                None => None,
                Some(later) => Some(found + later),
            },
        decreases fresh@.len() - at,
    {
        let candidate = &fresh[at];
        assert(new[at as int] == candidate.deep_view());
        let mut hit: usize = from;
        while hit < cached.len() && cached[hit].code != candidate.code
            invariant
                from <= hit <= cached@.len(),
                old_ones == cached.deep_view(),
                seek(old_ones, from as int, candidate.code@) == seek(
                    old_ones,
                    hit as int,
                    candidate.code@,
                ),
            decreases cached@.len() - hit,
        {
            assert(old_ones[hit as int] == cached@[hit as int].deep_view());
            hit += 1;
        }
        proof {
            if hit < cached@.len() {
                assert(old_ones[hit as int] == cached@[hit as int].deep_view());
            }
            assert(seek(old_ones, from as int, candidate.code@) == hit);
        }
        let baseline: u64 = if hit < cached.len() {
            match cached[hit].uses {
                Some(uses) => uses,
                None => {
                    return Err(InviteFault::MissingUses);
                },
            }
        } else {
            0
        };
        let now: u64 = match candidate.uses {
            Some(uses) => uses,
            None => 0,
        };
        let ghost before = found;
        if baseline < u64::MAX && now == baseline + 1 {
            if count == 0 {
                first = at;
            }
            count += 1;
            proof {
                found = found.push(at as int);
            }
        }
        proof {
            let next_from = hit as int + 1;
            let clipped = if hit < cached@.len() {
                hit as int + 1
            } else {
                cached@.len() as int
            };
            if hit >= cached@.len() {
                lemma_used_from_exhausted(new, old_ones, at as int + 1, next_from, clipped);
            }
            match used_from(new, old_ones, at as int + 1, clipped) {
                None => {},
                Some(later) => {
                    if now == baseline + 1 {
                        assert(before + (seq![at as int] + later) =~= found + later);
                    }
                },
            }
        }
        from = if hit < cached.len() {
            hit + 1
        } else {
            hit
        };
        at += 1;
    }
    assert(found + Seq::<int>::empty() =~= found);
    if count == 1 {
        Ok(Some(first))
    } else {
        Ok(None)
    }
}

/// How a new member relates to the member's inviter.
#[derive(Clone, Copy, PartialEq, Eq, Structural, Debug)]
pub enum JoinKind {
    /// The member had left before and is back.
    Rejoin,
    /// The member is the inviter of an invite that the record already holds.
    Known,
    /// The member used the member's own invite.
    SelfInvite,
    /// A first join through this inviter.
    Regular,
}

/// What is done with the used invite in the inviter's record.
#[derive(Clone, Copy, PartialEq, Eq, Structural, Debug)]
pub enum Keep {
    /// The invite is not recorded.
    No,
    /// The invite is added unless the record holds it already.
    Once,
    /// The invite is appended.
    Always,
}

/// One update of an inviter's record.
#[derive(Clone, Copy, PartialEq, Eq, Structural, Debug)]
pub struct TallyChange {
    /// What is added to the count of regular invites.
    pub regular: i64,
    /// What is added to the count of fake invites.
    pub fake: i64,
    /// Whether the used invite is recorded.
    pub keep_invite: Keep,
    /// Whether the member is struck from the list of those who left.
    pub forget_leave: bool,
}

/// How the join of `member` through `inviter` counts, given the members who
/// left the inviter's invites and the inviters of the invites that the
/// record holds. The first that applies: a member who had left rejoins; a
/// member who is among the recorded inviters is known; a member who is the
/// inviter invited oneself; any other join is regular.
pub open spec fn join_kind(
    member: u64,
    inviter: u64,
    leaves: Seq<Seq<char>>,
    recorded: Seq<Option<u64>>,
) -> Result<JoinKind, InviteFault> {
    if recorded.contains(None) {
        Err(InviteFault::MissingRecordedInviter)
    } else if leaves.contains(decimal_digits(member as nat)) {
        Ok(JoinKind::Rejoin)
    } else if recorded.contains(Some(member)) {
        Ok(JoinKind::Known)
    } else if inviter == member {
        Ok(JoinKind::SelfInvite)
    } else {
        Ok(JoinKind::Regular)
    }
}

/// The update that a join of the given kind makes.
pub open spec fn change_for(kind: JoinKind) -> TallyChange {
    match kind {
        JoinKind::Rejoin => TallyChange {
            regular: 0,
            fake: 0,
            keep_invite: Keep::Once,
            forget_leave: true,
        },
        JoinKind::Known => TallyChange {
            regular: 1,
            fake: -1i64,
            keep_invite: Keep::No,
            forget_leave: false,
        },
        JoinKind::SelfInvite => TallyChange {
            regular: 1,
            fake: 1,
            keep_invite: Keep::Always,
            forget_leave: false,
        },
        JoinKind::Regular => TallyChange {
            regular: 1,
            fake: 0,
            keep_invite: Keep::Always,
            forget_leave: false,
        },
    }
}

/// Computes [`join_kind`].
pub fn classify_join(
    member: u64,
    inviter: u64,
    leaves: &Vec<String>,
    recorded: &Vec<Option<u64>>,
) -> (kind: Result<JoinKind, InviteFault>)
    ensures
        kind == join_kind(member, inviter, leaves.deep_view(), recorded@),
{
    let mut known = false;
    let mut i: usize = 0;
    while i < recorded.len()
        invariant
            i <= recorded@.len(),
            forall|k: int| 0 <= k < i ==> recorded@[k] is Some,
            known == exists|k: int| 0 <= k < i && recorded@[k] == Some(member),
        decreases recorded@.len() - i,
    {
        match recorded[i] {
            None => {
                assert(recorded@[i as int] == None::<u64>);
                return Err(InviteFault::MissingRecordedInviter);
            },
            Some(id) => {
                if id == member {
                    known = true;
                }
            },
        }
        i += 1;
    }
    let mut text = String::new();
    push_u64(&mut text, member);
    assert(text@ =~= decimal_digits(member as nat));
    let mut left = false;
    let mut j: usize = 0;
    while j < leaves.len()
        invariant
            j <= leaves@.len(),
            text@ == decimal_digits(member as nat),
            left == exists|k: int| 0 <= k < j && leaves.deep_view()[k] == text@,
        decreases leaves@.len() - j,
    {
        if leaves[j] == text {
            assert(leaves.deep_view()[j as int] == text@);
            left = true;
        }
        j += 1;
    }
    if left {
        Ok(JoinKind::Rejoin)
    } else if known {
        Ok(JoinKind::Known)
    } else if inviter == member {
        Ok(JoinKind::SelfInvite)
    } else {
        Ok(JoinKind::Regular)
    }
}

/// Computes [`change_for`].
pub fn tally_change(kind: JoinKind) -> (change: TallyChange)
    ensures
        change == change_for(kind),
{
    match kind {
        JoinKind::Rejoin => TallyChange {
            regular: 0,
            fake: 0,
            keep_invite: Keep::Once,
            forget_leave: true,
        },
        JoinKind::Known => TallyChange {
            regular: 1,
            fake: -1i64,
            keep_invite: Keep::No,
            forget_leave: false,
        },
        JoinKind::SelfInvite => TallyChange {
            regular: 1,
            fake: 1,
            keep_invite: Keep::Always,
            forget_leave: false,
        },
        JoinKind::Regular => TallyChange {
            regular: 1,
            fake: 0,
            keep_invite: Keep::Always,
            forget_leave: false,
        },
    }
}

/// What the plugin notes when it cannot go on without being at fault.
#[derive(Clone, Copy, PartialEq, Eq, Structural, Debug)]
pub enum InviteNote {
    /// No invite, or more than one, went up by one use: the invite that the
    /// member used cannot be told.
    CannotTellInvite,
}

/// A request of the plugin to the chat service or to the store.
#[allow(inconsistent_fields)]
#[derive(Debug, PartialEq, Eq)]
pub enum InviteCommand {
    /// Add the invite of the event to the invites stored for `guild`,
    /// creating the record where there is none.
    AddInvite { guild: u64 },
    /// Take the invite `code` out of the invites stored for `guild`.
    RemoveInvite { guild: u64, code: String },
    /// List the invites of `guild` as the chat service has them now.
    FetchGuildInvites { guild: u64 },
    /// Read the invites stored for `guild`.
    FindGuildStorage { guild: u64 },
    /// Replace the invites stored for `guild` by those just listed.
    StoreGuildInvites { guild: u64 },
    /// Look the invite `code` up at the chat service.
    FetchInvite { code: String },
    /// Open the record of `inviter` in `guild`, creating it where there is
    /// none, and read it.
    OpenInviterRecord { inviter: u64, guild: u64 },
    /// Apply `change` to the record of `inviter` in `guild`, for the join of
    /// `member`.
    UpdateInviterRecord { inviter: u64, guild: u64, member: u64, change: TallyChange },
    /// Record that `member` joined `guild` through `inviter`, at this moment.
    RecordJoin { guild: u64, member: u64, inviter: u64 },
    /// Read how `member` joined `guild`.
    FindJoin { guild: u64, member: u64 },
    /// Add `member` to those who left the invites of `inviter` in `guild`.
    AddLeave { inviter: String, guild: String, member: u64 },
    /// Write `note` to the log.
    Note { note: InviteNote },
}

/// An [`InviteCommand`] as specifications see it.
#[allow(inconsistent_fields)]
pub enum InviteCommandView {
    AddInvite { guild: u64 },
    RemoveInvite { guild: u64, code: Seq<char> },
    FetchGuildInvites { guild: u64 },
    FindGuildStorage { guild: u64 },
    StoreGuildInvites { guild: u64 },
    FetchInvite { code: Seq<char> },
    OpenInviterRecord { inviter: u64, guild: u64 },
    UpdateInviterRecord { inviter: u64, guild: u64, member: u64, change: TallyChange },
    RecordJoin { guild: u64, member: u64, inviter: u64 },
    FindJoin { guild: u64, member: u64 },
    AddLeave { inviter: Seq<char>, guild: Seq<char>, member: u64 },
    Note { note: InviteNote },
}

impl DeepView for InviteCommand {
    type V = InviteCommandView;

    open spec fn deep_view(&self) -> InviteCommandView {
        match *self {
            InviteCommand::AddInvite { guild } => InviteCommandView::AddInvite { guild },
            InviteCommand::RemoveInvite { guild, code } => InviteCommandView::RemoveInvite {
                guild,
                code: code@,
            },
            InviteCommand::FetchGuildInvites { guild } => InviteCommandView::FetchGuildInvites {
                guild,
            },
            InviteCommand::FindGuildStorage { guild } => InviteCommandView::FindGuildStorage {
                guild,
            },
            InviteCommand::StoreGuildInvites { guild } => InviteCommandView::StoreGuildInvites {
                guild,
            },
            InviteCommand::FetchInvite { code } => InviteCommandView::FetchInvite { code: code@ },
            InviteCommand::OpenInviterRecord { inviter, guild } => {
                InviteCommandView::OpenInviterRecord { inviter, guild }
            },
            InviteCommand::UpdateInviterRecord { inviter, guild, member, change } => {
                InviteCommandView::UpdateInviterRecord { inviter, guild, member, change }
            },
            InviteCommand::RecordJoin { guild, member, inviter } => InviteCommandView::RecordJoin {
                guild,
                member,
                inviter,
            },
            InviteCommand::FindJoin { guild, member } => InviteCommandView::FindJoin {
                guild,
                member,
            },
            InviteCommand::AddLeave { inviter, guild, member } => InviteCommandView::AddLeave {
                inviter: inviter@,
                guild: guild@,
                member,
            },
            InviteCommand::Note { note } => InviteCommandView::Note { note },
        }
    }
}

/// What the plugin reads of an inviter's record.
#[derive(Debug, PartialEq, Eq)]
pub struct InviterRecord {
    /// The members who left after joining through this inviter.
    pub leaves: Vec<String>,
    /// The inviter of each invite that the record holds.
    pub recorded: Vec<Option<u64>>,
}

/// What the plugin reads of the record of a join.
#[derive(Debug, PartialEq, Eq)]
pub struct JoinRecord {
    pub guild_id: String,
    pub inviter_id: Option<String>,
}

/// What the caller reports back to the plugin.
#[derive(Debug, PartialEq, Eq)]
pub enum InviteReply {
    /// The request failed. The event is given up with that failure.
    Failed,
    /// The write went through.
    Written,
    /// The invites of the guild, as the chat service lists them.
    GuildInvites(Vec<InviteUse>),
    /// The invites stored for the guild, or `None` where nothing is stored.
    GuildStorage(Option<Vec<InviteUse>>),
    /// The inviter that the looked-up invite names, if it names one.
    Invite { inviter: Option<u64> },
    /// The inviter's record, or `None` where the store returned none.
    Record(Option<InviterRecord>),
    /// The record of the join, or `None` where there is none.
    Join(Option<JoinRecord>),
}

/// Where the handling of one event stands.
#[allow(inconsistent_fields)]
#[derive(Debug, PartialEq, Eq)]
pub enum InviteState {
    /// The last write is under way; its result is the outcome.
    Writing,
    /// The invites of the guild are being listed.
    FetchingInvites { guild: u64, member: u64 },
    /// The stored invites are being read.
    FindingStorage { guild: u64, member: u64, fresh: Vec<InviteUse> },
    /// The listed invites are being stored.
    StoringInvites { guild: u64, member: u64, fresh: Vec<InviteUse>, cached: Vec<InviteUse> },
    /// The used invite is being looked up.
    FetchingInvite { guild: u64, member: u64 },
    /// The inviter's record is being opened.
    OpeningRecord { guild: u64, member: u64, inviter: u64 },
    /// The inviter's record is being updated.
    Updating { guild: u64, member: u64, inviter: u64 },
    /// The record of the join is being read.
    FindingJoin { member: u64 },
    /// The event is handled.
    Done,
    /// A request failed; the plugin reports that failure.
    Failed,
    /// The plugin found its data broken.
    Crashed { fault: InviteFault },
}

/// The view of a command that may be absent.
pub open spec fn command_view(command: Option<InviteCommand>) -> Option<InviteCommandView> {
    match command {
        Some(c) => Some(c.deep_view()),
        None => None,
    }
}

/// What [`InviteCounting::on_event`] answers.
pub open spec fn reacts(event: Event, state: InviteState, command: Option<InviteCommandView>) -> bool {
    match event {
        Event::InviteCreate { guild_id, .. } => {
            &&& state is Writing
            &&& command == Some(InviteCommandView::AddInvite { guild: guild_id })
        },
        Event::InviteDelete { guild_id, code } => {
            &&& state is Writing
            &&& command == Some(InviteCommandView::RemoveInvite { guild: guild_id, code: code@ })
        },
        Event::MemberAdd { guild_id, user } => {
            if user.bot {
                state is Done && command is None
            } else {
                &&& state == (InviteState::FetchingInvites { guild: guild_id, member: user.id })
                &&& command == Some(InviteCommandView::FetchGuildInvites { guild: guild_id })
            }
        },
        Event::MemberRemove { guild_id, user } => {
            &&& state == (InviteState::FindingJoin { member: user.id })
            &&& command == Some(InviteCommandView::FindJoin { guild: guild_id, member: user.id })
        },
        _ => state is Done && command is None,
    }
}

/// What follows once the fresh and the stored invites are both at hand: the
/// used invite is looked up where it can be told, and the event is done
/// with where it cannot.
pub open spec fn matched(
    guild: u64,
    member: u64,
    fresh: Seq<InviteUseView>,
    cached: Seq<InviteUseView>,
    post: InviteState,
    command: Option<InviteCommandView>,
) -> bool {
    if cached.len() == 0 || fresh.len() == 0 {
        post is Done && command is None
    } else {
        match used_invite(fresh, cached) {
            Err(fault) => post == (InviteState::Crashed { fault }) && command is None,
            Ok(None) => {
                &&& post is Done
                &&& command == Some(
                    InviteCommandView::Note { note: InviteNote::CannotTellInvite },
                )
            },
            Ok(Some(i)) => {
                &&& post == (InviteState::FetchingInvite { guild, member })
                &&& command == Some(InviteCommandView::FetchInvite { code: fresh[i].code })
            },
        }
    }
}

/// The stored invites that a reply stands for: none where nothing is stored.
pub open spec fn stored_invites(stored: Option<Vec<InviteUse>>) -> Seq<InviteUseView> {
    match stored {
        Some(invites) => invites.deep_view(),
        None => Seq::empty(),
    }
}

/// The transition relation of the plugin: in `pre`, on `reply`, it moves
/// to `post` and sends `command`, if any.
pub open spec fn proceeds(
    pre: InviteState,
    reply: InviteReply,
    post: InviteState,
    command: Option<InviteCommandView>,
) -> bool {
    let stays = post == pre && command is None;
    match (pre, reply) {
        (InviteState::Done, _) => stays,
        (InviteState::Failed, _) => stays,
        (InviteState::Crashed { .. }, _) => stays,
        (_, InviteReply::Failed) => post is Failed && command is None,
        (InviteState::Writing, InviteReply::Written) => post is Done && command is None,
        (InviteState::FetchingInvites { guild, member }, InviteReply::GuildInvites(fresh)) => {
            &&& post matches InviteState::FindingStorage {
                guild: post_guild,
                member: post_member,
                fresh: post_fresh,
            }
            &&& post_guild == guild
            &&& post_member == member
            &&& post_fresh.deep_view() == fresh.deep_view()
            &&& command == Some(InviteCommandView::FindGuildStorage { guild })
        },
        (InviteState::FindingStorage { guild, member, fresh }, InviteReply::GuildStorage(stored)) => {
            if fresh@.len() > 0 {
                &&& post matches InviteState::StoringInvites {
                    guild: post_guild,
                    member: post_member,
                    fresh: post_fresh,
                    cached: post_cached,
                }
                &&& post_guild == guild
                &&& post_member == member
                &&& post_fresh.deep_view() == fresh.deep_view()
                &&& post_cached.deep_view() == stored_invites(stored)
                &&& command == Some(InviteCommandView::StoreGuildInvites { guild })
            } else {
                post is Done && command is None
            }
        },
        (InviteState::StoringInvites { guild, member, fresh, cached }, InviteReply::Written) => {
            matched(guild, member, fresh.deep_view(), cached.deep_view(), post, command)
        },
        (InviteState::FetchingInvite { guild, member }, InviteReply::Invite { inviter }) => {
            match inviter {
                None => {
                    &&& post == (InviteState::Crashed { fault: InviteFault::MissingInviter })
                    &&& command is None
                },
                Some(inviter) => {
                    &&& post == (InviteState::OpeningRecord { guild, member, inviter })
                    &&& command == Some(InviteCommandView::OpenInviterRecord { inviter, guild })
                },
            }
        },
        (InviteState::OpeningRecord { guild, member, inviter }, InviteReply::Record(record)) => {
            match record {
                None => {
                    &&& post == (InviteState::Crashed { fault: InviteFault::MissingRecord })
                    &&& command is None
                },
                Some(record) => {
                    match join_kind(member, inviter, record.leaves.deep_view(), record.recorded@) {
                        Err(fault) => post == (InviteState::Crashed { fault }) && command is None,
                        Ok(kind) => {
                            &&& post == (InviteState::Updating { guild, member, inviter })
                            &&& command == Some(
                                InviteCommandView::UpdateInviterRecord {
                                    inviter,
                                    guild,
                                    member,
                                    change: change_for(kind),
                                },
                            )
                        },
                    }
                },
            }
        },
        (InviteState::Updating { guild, member, inviter }, InviteReply::Written) => {
            &&& post is Writing
            &&& command == Some(InviteCommandView::RecordJoin { guild, member, inviter })
        },
        (InviteState::FindingJoin { member }, InviteReply::Join(found)) => {
            match found {
                Some(JoinRecord { guild_id, inviter_id: Some(inviter) }) => {
                    &&& post is Writing
                    &&& command == Some(
                        InviteCommandView::AddLeave { inviter: inviter@, guild: guild_id@, member },
                    )
                },
                _ => post is Done && command is None,
            }
        },
        _ => stays,
    }
}

fn go_on(guild: u64, member: u64, fresh: &Vec<InviteUse>, cached: &Vec<InviteUse>) -> (next: (
    InviteState,
    Option<InviteCommand>,
))
    ensures
        matched(
            guild,
            member,
            fresh.deep_view(),
            cached.deep_view(),
            next.0,
            command_view(next.1),
        ),
{
    if cached.len() == 0 || fresh.len() == 0 {
        (InviteState::Done, None)
    } else {
        match find_used_invite(fresh, cached) {
            Err(fault) => (InviteState::Crashed { fault }, None),
            Ok(None) => (
                InviteState::Done,
                Some(InviteCommand::Note { note: InviteNote::CannotTellInvite }),
            ),
            Ok(Some(i)) => {
                assert(fresh.deep_view()[i as int] == fresh@[i as int].deep_view());
                (
                    InviteState::FetchingInvite { guild, member },
                    Some(InviteCommand::FetchInvite { code: fresh[i].code.clone() }),
                )
            },
        }
    }
}

impl InviteCounting {
    /// The reactive path: the first request that `event` calls for, if any.
    pub fn on_event(&self, event: &Event) -> (next: (InviteState, Option<InviteCommand>))
        ensures
            reacts(*event, next.0, command_view(next.1)),
    {
        match event {
            Event::InviteCreate { guild_id, .. } => (
                InviteState::Writing,
                Some(InviteCommand::AddInvite { guild: *guild_id }),
            ),
            Event::InviteDelete { guild_id, code } => (
                InviteState::Writing,
                Some(InviteCommand::RemoveInvite { guild: *guild_id, code: code.clone() }),
            ),
            Event::MemberAdd { guild_id, user } => {
                if user.bot {
                    (InviteState::Done, None)
                } else {
                    (
                        InviteState::FetchingInvites { guild: *guild_id, member: user.id },
                        Some(InviteCommand::FetchGuildInvites { guild: *guild_id }),
                    )
                }
            },
            Event::MemberRemove { guild_id, user } => (
                InviteState::FindingJoin { member: user.id },
                Some(InviteCommand::FindJoin { guild: *guild_id, member: user.id }),
            ),
            _ => (InviteState::Done, None),
        }
    }

    /// The periodic path: the plugin keeps nothing that needs syncing.
    pub fn sync_db(&self) -> (commands: Vec<InviteCommand>)
        ensures
            commands@.len() == 0,
    {
        Vec::new()
    }
}

/// Advances the handling of an event by one reply.
pub fn step(state: InviteState, reply: InviteReply) -> (next: (InviteState, Option<InviteCommand>))
    ensures
        proceeds(state, reply, next.0, command_view(next.1)),
{
    match (state, reply) {
        (InviteState::Done, _) => (InviteState::Done, None),
        (InviteState::Failed, _) => (InviteState::Failed, None),
        (InviteState::Crashed { fault }, _) => (InviteState::Crashed { fault }, None),
        (_, InviteReply::Failed) => (InviteState::Failed, None),
        (InviteState::Writing, InviteReply::Written) => (InviteState::Done, None),
        (InviteState::FetchingInvites { guild, member }, InviteReply::GuildInvites(fresh)) => (
            InviteState::FindingStorage { guild, member, fresh },
            Some(InviteCommand::FindGuildStorage { guild }),
        ),
        (InviteState::FindingStorage { guild, member, fresh }, InviteReply::GuildStorage(stored)) => {
            if fresh.len() > 0 {
                let cached = match stored {
                    Some(invites) => invites,
                    None => Vec::new(),
                };
                assert(cached.deep_view() =~= stored_invites(stored));
                (
                    InviteState::StoringInvites { guild, member, fresh, cached },
                    Some(InviteCommand::StoreGuildInvites { guild }),
                )
            } else {
                (InviteState::Done, None)
            }
        },
        (InviteState::StoringInvites { guild, member, fresh, cached }, InviteReply::Written) => {
            go_on(guild, member, &fresh, &cached)
        },
        (InviteState::FetchingInvite { guild, member }, InviteReply::Invite { inviter }) => {
            match inviter {
                None => (InviteState::Crashed { fault: InviteFault::MissingInviter }, None),
                Some(inviter) => (
                    InviteState::OpeningRecord { guild, member, inviter },
                    Some(InviteCommand::OpenInviterRecord { inviter, guild }),
                ),
            }
        },
        (InviteState::OpeningRecord { guild, member, inviter }, InviteReply::Record(record)) => {
            match record {
                None => (InviteState::Crashed { fault: InviteFault::MissingRecord }, None),
                Some(record) => {
                    match classify_join(member, inviter, &record.leaves, &record.recorded) {
                        Err(fault) => (InviteState::Crashed { fault }, None),
                        Ok(kind) => (
                            InviteState::Updating { guild, member, inviter },
                            Some(
                                InviteCommand::UpdateInviterRecord {
                                    inviter,
                                    guild,
                                    member,
                                    change: tally_change(kind),
                                },
                            ),
                        ),
                    }
                },
            }
        },
        (InviteState::Updating { guild, member, inviter }, InviteReply::Written) => (
            InviteState::Writing,
            Some(InviteCommand::RecordJoin { guild, member, inviter }),
        ),
        (InviteState::FindingJoin { member }, InviteReply::Join(found)) => {
            match found {
                Some(JoinRecord { guild_id, inviter_id: Some(inviter) }) => (
                    InviteState::Writing,
                    Some(InviteCommand::AddLeave { inviter, guild: guild_id, member }),
                ),
                _ => (InviteState::Done, None),
            }
        },
        (state, _) => (state, None),
    }
}

} // verus!
