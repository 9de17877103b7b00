//! The message-counting plugin: it counts the messages of each user in each
//! guild, and hands the counts to the store on every sync.

use crate::event::Event;
use crate::plugin::Plugin;
use crate::trusted::{all_counts, clear_counts, count_of, counts_of, new_counts, no_counts, put_count};
use dashmap::DashMap;
use vstd::prelude::*;

verus! {

/// The plugin that counts messages.
#[derive(Debug)]
pub struct MessageCounting {
    /// The messages counted since the last sync, by guild and user.
    pub cache: DashMap<(u64, u64), i64>,
}

impl Plugin for MessageCounting {
    open spec fn spec_name(&self) -> Seq<char> {
        "message_counting"@
    }

    fn name(&self) -> (name: &'static str) {
        "message_counting"
    }

    fn description(&self) -> (text: &'static str) {
        "Counts the number of messages sent by each user"
    }

    open spec fn spec_description(&self) -> Seq<char> {
        "Counts the number of messages sent by each user"@
    }
}

impl Default for MessageCounting {
    fn default() -> (plugin: Self)
        ensures
            plugin.counts() == no_counts(),
    {
        MessageCounting { cache: new_counts() }
    }
}

/// One count to add to what the store holds for a user in a guild.
#[derive(Clone, Copy, PartialEq, Eq, Structural, Debug)]
pub struct CountFlush {
    pub guild: u64,
    pub user: u64,
    pub count: i64,
}

/// Where a sync stands.
#[derive(Debug, PartialEq, Eq)]
pub enum SyncState {
    /// The row at position `next` is being written.
    Flushing { rows: Vec<CountFlush>, next: usize },
    /// Every row is written and the counts are cleared.
    Done,
    /// A row could not be written. The counts are kept as they were.
    Failed,
}

/// The count after one more message: one above `count`, and no further
/// than an `i64` goes.
pub open spec fn bumped(count: i64) -> i64 {
    if count < i64::MAX {
        (count + 1) as i64
    } else {
        count
    }
}

/// The counts after `event`: a message that a user who is no bot sends in a
/// guild raises that user's count there by one, from nothing to one.
/// Nothing else changes the counts.
pub open spec fn counted(counts: Map<(u64, u64), i64>, event: Event) -> Map<(u64, u64), i64> {
    match event {
        Event::MessageCreate(message) => {
            if !message.author.bot && message.guild_id is Some {
                let key = (message.guild_id->0, message.author.id);
                if counts.contains_key(key) {
                    counts.insert(key, bumped(counts[key]))
                } else {
                    counts.insert(key, 1)
                }
            } else {
                counts
            }
        },
        _ => counts,
    }
}

/// `rows` lists `counts` entry by entry: every row is an entry, no entry is
/// listed twice, and none is left out.
pub open spec fn lists(rows: Seq<CountFlush>, counts: Map<(u64, u64), i64>) -> bool {
    &&& forall|i: int|
        0 <= i < rows.len() ==> counts.contains_pair(
            ((#[trigger] rows[i]).guild, rows[i].user),
            rows[i].count,
        )
    &&& forall|i: int, j: int|
        0 <= i < j < rows.len() ==> ((#[trigger] rows[i]).guild, rows[i].user) != ((
            #[trigger] rows[j]).guild, rows[j].user)
    &&& forall|key: (u64, u64)|
        counts.contains_key(key) ==> exists|i: int|
            0 <= i < rows.len() && (#[trigger] rows[i]).guild == key.0 && rows[i].user == key.1
}

impl MessageCounting {
    /// The counts that the plugin holds.
    pub open spec fn counts(&self) -> Map<(u64, u64), i64> {
        counts_of(self.cache)
    }

    /// The count kept for `user` in `guild`, if one is kept.
    pub fn count(&self, guild: u64, user: u64) -> (count: Option<i64>)
        ensures
            count == if self.counts().contains_key((guild, user)) {
                Some(self.counts()[(guild, user)])
            } else {
                None
            },
    {
        count_of(&self.cache, guild, user)
    }

    /// The reactive path: counts the message, if `event` is one that counts.
    pub fn on_event(&mut self, event: &Event)
        ensures
            final(self).counts() == counted(old(self).counts(), *event),
    {
        match event {
            Event::MessageCreate(message) => {
                if message.author.bot {
                    return ;
                }
                match message.guild_id {
                    Some(guild) => {
                        let user = message.author.id;
                        match count_of(&self.cache, guild, user) {
                            Some(count) => {
                                let raised = if count < i64::MAX {
                                    count + 1
                                } else {
                                    count
                                };
                                put_count(&mut self.cache, guild, user, raised);
                            },
                            None => {
                                put_count(&mut self.cache, guild, user, 1);
                            },
                        }
                    },
                    None => {},
                }
            },
            _ => {},
        }
    }

    /// The periodic path: lists the counts to write, one row per user and
    /// guild, and asks for the first. The caller writes row after row and
    /// reports each result to [`MessageCounting::step_sync`]. With nothing
    /// to write the sync is over at once.
    pub fn sync_db(&mut self) -> (next: (SyncState, Option<CountFlush>))
        ensures
            match next.0 {
                SyncState::Flushing { rows, next: position } => {
                    &&& lists(rows@, old(self).counts())
                    &&& rows@.len() > 0
                    &&& position == 0
                    &&& next.1 == Some(rows@[0])
                    &&& final(self).counts() == old(self).counts()
                },
                SyncState::Done => {
                    &&& forall|key: (u64, u64)| !old(self).counts().contains_key(key)
                    &&& next.1 is None
                    &&& final(self).counts() == no_counts()
                },
                SyncState::Failed => false,
            },
    {
        let found = all_counts(&self.cache);
        let mut rows: Vec<CountFlush> = Vec::new();
        let mut i: usize = 0;
        while i < found.len()
            invariant
                i <= found@.len(),
                rows@.len() == i,
                forall|k: int|
                    0 <= k < i ==> #[trigger] rows@[k] == (CountFlush {
                        guild: found@[k].0,
                        user: found@[k].1,
                        count: found@[k].2,
                    }),
            decreases found@.len() - i,
        {
            rows.push(CountFlush { guild: found[i].0, user: found[i].1, count: found[i].2 });
            i += 1;
        }
        proof {
            let counts = self.counts();
            assert forall|key: (u64, u64)| counts.contains_key(key) implies exists|i: int|
                0 <= i < rows@.len() && (#[trigger] rows@[i]).guild == key.0 && rows@[i].user
                    == key.1 by {
                let k = choose|k: int|
                    0 <= k < found@.len() && (#[trigger] found@[k]).0 == key.0 && found@[k].1
                        == key.1;
                assert(rows@[k].guild == key.0);
            }
            assert forall|a: int, b: int| 0 <= a < b < rows@.len() implies ((
                #[trigger] rows@[a]).guild, rows@[a].user) != ((#[trigger] rows@[b]).guild, rows@[b].user) by {
                assert((found@[a].0, found@[a].1) != (found@[b].0, found@[b].1));
            }
            assert forall|a: int| 0 <= a < rows@.len() implies counts.contains_pair(
                ((#[trigger] rows@[a]).guild, rows@[a].user),
                rows@[a].count,
            ) by {
                assert(counts.contains_pair((found@[a].0, found@[a].1), found@[a].2));
            }
        }
        if rows.len() == 0 {
            clear_counts(&mut self.cache);
            (SyncState::Done, None)
        } else {
            let first = rows[0];
            (SyncState::Flushing { rows, next: 0 }, Some(first))
        }
    }

    /// Advances a sync by the result of the write that was asked for last:
    /// after a write that went through, the next row is asked for, or, after
    /// the last row, the counts are cleared; after a write that failed the
    /// sync is given up and the counts stay.
    pub fn step_sync(&mut self, state: SyncState, written: bool) -> (next: (
        SyncState,
        Option<CountFlush>,
    ))
        ensures
            match state {
                SyncState::Flushing { rows, next: position } => {
                    if !written {
                        &&& next.0 is Failed
                        &&& next.1 is None
                        &&& final(self).counts() == old(self).counts()
                    } else if position + 1 < rows@.len() {
                        &&& next.0 matches SyncState::Flushing { rows: kept, next: following }
                        &&& kept@ == rows@
                        &&& following == position + 1
                        &&& next.1 == Some(rows@[position + 1])
                        &&& final(self).counts() == old(self).counts()
                    } else {
                        &&& next.0 is Done
                        &&& next.1 is None
                        &&& final(self).counts() == no_counts()
                    }
                },
                _ => next.0 == state && next.1 is None && final(self).counts() == old(
                    self,
                ).counts(),
            },
    {
        match state {
            SyncState::Flushing { rows, next } => {
                if !written {
                    (SyncState::Failed, None)
                } else if rows.len() > 0 && next < rows.len() - 1 {
                    let row = rows[next + 1];
                    (SyncState::Flushing { rows, next: next + 1 }, Some(row))
                } else {
                    clear_counts(&mut self.cache);
                    (SyncState::Done, None)
                }
            },
            state => (state, None),
        }
    }
}

} // verus!
