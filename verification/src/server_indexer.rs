//! The server-indexing plugin: it keeps the store's list of guilds in step
//! with what the gateway reports.

use crate::event::Event;
use crate::plugin::Plugin;
use vstd::prelude::*;

verus! {

/// The plugin that mirrors guilds into the store.
#[derive(Debug, Clone, Copy)]
pub struct ServerIndexer();

impl Plugin for ServerIndexer {
    open spec fn spec_name(&self) -> Seq<char> {
        "server_indexer"@
    }

    fn name(&self) -> (name: &'static str) {
        "server_indexer"
    }

    fn description(&self) -> (text: &'static str) {
        "Syncs database information needed for workers cmd handling"
    }

    open spec fn spec_description(&self) -> Seq<char> {
        "Syncs database information needed for workers cmd handling"@
    }
}

/// One write to the store's list of guilds.
#[derive(Clone, Copy, PartialEq, Eq, Structural, Debug)]
pub enum IndexCommand {
    /// Store the guild that the event carries under `guild`, whether or not
    /// the store holds it already.
    Upsert { guild: u64 },
    /// Remove what is stored under `guild`.
    Delete { guild: u64 },
}

/// The write that `event` calls for: a guild that was created or updated is
/// stored; a guild that was deleted is removed, unless it is only
/// unavailable for a while.
pub open spec fn indexed(event: Event) -> Option<IndexCommand> {
    match event {
        Event::GuildUpdate { id } => Some(IndexCommand::Upsert { guild: id }),
        Event::GuildCreate { id } => Some(IndexCommand::Upsert { guild: id }),
        Event::GuildDelete { id, unavailable } => if unavailable {
            None
        } else {
            Some(IndexCommand::Delete { guild: id })
        },
        _ => None,
    }
}

impl ServerIndexer {
    /// The reactive path: the write that `event` calls for, if any.
    pub fn on_event(&self, event: &Event) -> (command: Option<IndexCommand>)
        ensures
            command == indexed(*event),
    {
        match event {
            Event::GuildUpdate { id } => Some(IndexCommand::Upsert { guild: *id }),
            Event::GuildCreate { id } => Some(IndexCommand::Upsert { guild: *id }),
            Event::GuildDelete { id, unavailable } => {
                if *unavailable {
                    None
                } else {
                    Some(IndexCommand::Delete { guild: *id })
                }
            },
            _ => None,
        }
    }

    /// The periodic path: the plugin keeps nothing that needs syncing.
    pub fn sync_db(&self) -> (commands: Vec<IndexCommand>)
        ensures
            commands@.len() == 0,
    {
        Vec::new()
    }
}

} // verus!
