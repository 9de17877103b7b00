//! The utility plugin: it answers for users who are away when somebody
//! mentions them.

use crate::event::{Event, UserRef};
use crate::plugin::Plugin;
use crate::trusted::{drop_note, new_notes, no_notes, note_of, noted_users, notes_of, put_note};
use dashmap::DashMap;
use vstd::prelude::*;

verus! {

/// The plugin that sends the notes of users who are away.
#[derive(Debug)]
pub struct Utility {
    /// The note of each user who is away.
    pub cache: DashMap<u64, String>,
}

impl Plugin for Utility {
    open spec fn spec_name(&self) -> Seq<char> {
        "utility"@
    }

    fn name(&self) -> (name: &'static str) {
        "utility"
    }

    fn description(&self) -> (text: &'static str) {
        "Sends afk messages when a user is AFK"
    }

    open spec fn spec_description(&self) -> Seq<char> {
        "Sends afk messages when a user is AFK"@
    }
}

impl Default for Utility {
    fn default() -> (plugin: Self)
        ensures
            plugin.notes() == no_notes(),
    {
        Utility { cache: new_notes() }
    }
}

/// A user who is away, as the store lists the user.
#[derive(Debug, PartialEq, Eq)]
pub struct AfkUser {
    pub user_id: u64,
    pub message: String,
}

/// The answer to a mention of a user who is away: an embed with the user's
/// note, posted where the mention was.
#[derive(Debug, PartialEq, Eq)]
pub struct AfkNotice {
    pub channel: u64,
    pub description: String,
}

/// The position of the first mentioned user who is away and is not the
/// author, or the number of mentions where there is none.
pub open spec fn first_away(
    notes: Map<u64, Seq<char>>,
    mentions: Seq<UserRef>,
    author: u64,
    from: int,
) -> int
    decreases mentions.len() - from,
{
    if from < 0 || from >= mentions.len() {
        mentions.len() as int
    } else if notes.contains_key(mentions[from].id) && mentions[from].id != author {
        from
    } else {
        first_away(notes, mentions, author, from + 1)
    }
}

/// The answer that `event` calls for, as channel and text: a message that a
/// user who is no bot posts and that mentions somebody away, other than the
/// author, is answered with the note of the first such user.
pub open spec fn answer(notes: Map<u64, Seq<char>>, event: Event) -> Option<(u64, Seq<char>)> {
    match event {
        Event::MessageCreate(message) => {
            let at = first_away(notes, message.mentions@, message.author.id, 0);
            if !message.author.bot && at < message.mentions@.len() {
                Some((message.channel_id, notes[message.mentions@[at].id]))
            } else {
                None
            }
        },
        _ => None,
    }
}

/// The notes that a list of away users makes: one note per listed user,
/// the last one where a user is listed more than once.
pub open spec fn notes_from(found: Seq<AfkUser>) -> Map<u64, Seq<char>>
    decreases found.len(),
{
    if found.len() == 0 {
        Map::empty()
    } else {
        notes_from(found.drop_last()).insert(found.last().user_id, found.last().message@)
    }
}

/// The listed users are exactly those for whom [`notes_from`] has a note.
pub proof fn lemma_notes_from_domain(found: Seq<AfkUser>, user: u64)
    ensures
        notes_from(found).contains_key(user) <==> exists|i: int|
            0 <= i < found.len() && (#[trigger] found[i]).user_id == user,
    decreases found.len(),
{
    if found.len() > 0 {
        let earlier = found.drop_last();
        lemma_notes_from_domain(earlier, user);
        if notes_from(found).contains_key(user) {
            if found.last().user_id == user {
                assert(found[found.len() - 1].user_id == user);
            } else {
                let i = choose|i: int| 0 <= i < earlier.len() && (#[trigger] earlier[i]).user_id == user;
                assert(found[i].user_id == user);
            }
        }
        if exists|i: int| 0 <= i < found.len() && (#[trigger] found[i]).user_id == user {
            let i = choose|i: int| 0 <= i < found.len() && (#[trigger] found[i]).user_id == user;
            if i < earlier.len() {
                assert(earlier[i].user_id == user);
            }
        }
    }
}

impl Utility {
    /// The notes that the plugin holds.
    pub open spec fn notes(&self) -> Map<u64, Seq<char>> {
        notes_of(self.cache)
    }

    /// The reactive path: the answer to `event`, if it calls for one.
    pub fn on_event(&self, event: &Event) -> (notice: Option<AfkNotice>)
        ensures
            match notice {
                Some(n) => answer(self.notes(), *event) == Some((n.channel, n.description@)),
                None => answer(self.notes(), *event) is None,
            },
    {
        match event {
            Event::MessageCreate(message) => {
                if message.author.bot || message.mentions.len() == 0 {
                    return None;
                }
                let mut i: usize = 0;
                while i < message.mentions.len()
                    invariant
                        i <= message.mentions@.len(),
                        !message.author.bot,
                        *event == Event::MessageCreate(*message),
                        first_away(self.notes(), message.mentions@, message.author.id, 0)
                            == first_away(
                            self.notes(),
                            message.mentions@,
                            message.author.id,
                            i as int,
                        ),
                    decreases message.mentions@.len() - i,
                {
                    let mentioned = message.mentions[i].id;
                    if mentioned != message.author.id {
                        match note_of(&self.cache, mentioned) {
                            Some(description) => {
                                assert(first_away(
                                    self.notes(),
                                    message.mentions@,
                                    message.author.id,
                                    i as int,
                                ) == i);
                                return Some(AfkNotice { channel: message.channel_id, description });
                            },
                            None => {},
                        }
                    }
                    i += 1;
                }
                None
            },
            _ => None,
        }
    }

    /// The periodic path: takes over the users whom the store lists as
    /// away. Afterwards the plugin holds a note for exactly those users.
    pub fn sync_db(&mut self, found: &Vec<AfkUser>)
        ensures
            final(self).notes() == notes_from(found@),
    {
        let ghost before = self.notes();
        let mut i: usize = 0;
        assert(found@.take(0) =~= Seq::empty());
        assert(before.union_prefer_right(notes_from(found@.take(0))) =~= before);
        while i < found.len()
            invariant
                i <= found@.len(),
                self.notes() == before.union_prefer_right(notes_from(found@.take(i as int))),
            decreases found@.len() - i,
        {
            let ghost sofar = notes_from(found@.take(i as int));
            assert(found@.take(i as int + 1).drop_last() =~= found@.take(i as int));
            put_note(&mut self.cache, found[i].user_id, found[i].message.clone());
            assert(self.notes() =~= before.union_prefer_right(
                sofar.insert(found@[i as int].user_id, found@[i as int].message@),
            ));
            i += 1;
        }
        assert(found@.take(i as int) =~= found@);
        let ghost wanted = notes_from(found@);
        let ghost merged = self.notes();
        let users = noted_users(&self.cache);
        let mut k: usize = 0;
        assert forall|user: u64|
            self.notes().contains_key(user) <==> merged.contains_key(user) && (
            wanted.contains_key(user) || exists|a: int|
                0 <= a < users@.len() && users@[a] == user) by {
            if merged.contains_key(user) {
                assert(users@.contains(user));
                let a = choose|a: int| 0 <= a < users@.len() && users@[a] == user;
                assert(users@[a] == user);
            }
        }
        while k < users.len()
            invariant
                k <= users@.len(),
                merged == before.union_prefer_right(wanted),
                wanted == notes_from(found@),
                forall|a: int| 0 <= a < users@.len() ==> merged.contains_key(#[trigger] users@[a]),
                forall|a: int, b: int| 0 <= a < b < users@.len() ==> users@[a] != users@[b],
                forall|user: u64| merged.contains_key(user) ==> users@.contains(user),
                forall|user: u64|
                    self.notes().contains_key(user) <==> merged.contains_key(user) && (
                    wanted.contains_key(user) || exists|a: int|
                        k <= a < users@.len() && users@[a] == user),
                forall|user: u64|
                    self.notes().contains_key(user) ==> self.notes()[user] == merged[user],
            decreases users@.len() - k,
        {
            let user = users[k];
            if !is_listed(found, user) {
                proof {
                    lemma_notes_from_domain(found@, user);
                }
                drop_note(&mut self.cache, user);
            } else {
                proof {
                    lemma_notes_from_domain(found@, user);
                }
            }
            assert forall|other: u64|
                self.notes().contains_key(other) <==> merged.contains_key(other) && (
                wanted.contains_key(other) || exists|a: int|
                    k + 1 <= a < users@.len() && users@[a] == other) by {
                if other != user {
                    if exists|a: int| k <= a < users@.len() && users@[a] == other {
                        let a = choose|a: int| k <= a < users@.len() && users@[a] == other;
                        assert(a >= k + 1);
                    }
                } else {
                    if exists|a: int| k + 1 <= a < users@.len() && users@[a] == other {
                        let a = choose|a: int| k + 1 <= a < users@.len() && users@[a] == other;
                        assert(users@[k as int] != users@[a]);
                    }
                }
            }
            k += 1;
        }
        assert forall|user: u64| self.notes().contains_key(user) <==> wanted.contains_key(
            user,
        ) by {}
        assert forall|user: u64| self.notes().contains_key(user) implies self.notes()[user]
            == wanted[user] by {
            assert(wanted.contains_key(user));
            assert(merged.contains_key(user));
            assert(merged[user] == wanted[user]);
        }
        assert(self.notes() =~= wanted);
    }
}

/// Whether the store lists `user` as away.
pub fn is_listed(found: &Vec<AfkUser>, user: u64) -> (listed: bool)
    ensures
        listed == exists|i: int| 0 <= i < found@.len() && (#[trigger] found@[i]).user_id == user,
{
    let mut i: usize = 0;
    while i < found.len()
        invariant
            i <= found@.len(),
            forall|k: int| 0 <= k < i ==> (#[trigger] found@[k]).user_id != user,
        decreases found@.len() - i,
    {
        if found[i].user_id == user {
            return true;
        }
        i += 1;
    }
    false
}

} // verus!
