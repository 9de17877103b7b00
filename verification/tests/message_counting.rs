use gateway_worker::event::{ChatMessage, Event, UserRef};
use gateway_worker::message_counting::{CountFlush, MessageCounting, SyncState};
use gateway_worker::plugin::Plugin;

fn message(guild_id: Option<u64>, author: u64, bot: bool) -> Event {
    Event::MessageCreate(ChatMessage {
        id: 1,
        channel_id: 2,
        guild_id,
        author: UserRef { id: author, name: "someone".to_string(), bot },
        content: "hi".to_string(),
        timestamp: 0,
        embeds: Vec::new(),
        mentions: Vec::new(),
        reference: None,
    })
}

fn sorted(mut rows: Vec<CountFlush>) -> Vec<CountFlush> {
    rows.sort_by_key(|row| (row.guild, row.user));
    rows
}

#[test]
fn message_counting_the_plugin_is_called_message_counting() {
    let plugin = MessageCounting::default();
    assert_eq!(plugin.name(), "message_counting");
    assert_eq!(plugin.description(), "Counts the number of messages sent by each user");
    assert_eq!(plugin.count(1, 1), None);
}

#[test]
fn message_counting_messages_are_counted_by_guild_and_user() {
    let mut plugin = MessageCounting::default();
    plugin.on_event(&message(Some(10), 1, false));
    assert_eq!(plugin.count(10, 1), Some(1));
    plugin.on_event(&message(Some(10), 1, false));
    plugin.on_event(&message(Some(10), 2, false));
    plugin.on_event(&message(Some(20), 1, false));
    plugin.on_event(&message(Some(10), 1, false));
    assert_eq!(plugin.count(10, 1), Some(3));
    assert_eq!(plugin.count(10, 2), Some(1));
    assert_eq!(plugin.count(20, 1), Some(1));
    assert_eq!(plugin.count(20, 2), None);
    assert_eq!(plugin.count(1, 10), None);
}

#[test]
fn message_counting_bots_direct_messages_and_other_events_do_not_count() {
    let mut plugin = MessageCounting::default();
    plugin.on_event(&message(Some(10), 1, true));
    plugin.on_event(&message(None, 1, false));
    plugin.on_event(&Event::GuildCreate { id: 10 });
    plugin.on_event(&Event::MessageUpdate { guild_id: Some(10) });
    assert_eq!(plugin.count(10, 1), None);
    assert_eq!(plugin.cache.len(), 0);
}

#[test]
fn message_counting_a_count_stops_at_the_greatest_number() {
    let mut plugin = MessageCounting::default();
    plugin.cache.insert((10, 1), i64::MAX - 1);
    plugin.on_event(&message(Some(10), 1, false));
    assert_eq!(plugin.count(10, 1), Some(i64::MAX));
    plugin.on_event(&message(Some(10), 1, false));
    assert_eq!(plugin.count(10, 1), Some(i64::MAX));
}

#[test]
fn message_counting_a_sync_writes_every_count_once_and_clears_them() {
    let mut plugin = MessageCounting::default();
    for _ in 0..3 {
        plugin.on_event(&message(Some(10), 1, false));
    }
    plugin.on_event(&message(Some(10), 2, false));
    plugin.on_event(&message(Some(20), 1, false));

    let (mut state, mut command) = plugin.sync_db();
    let mut written = Vec::new();
    while let Some(row) = command {
        written.push(row);
        assert_eq!(plugin.cache.len(), 3);
        let next = plugin.step_sync(state, true);
        state = next.0;
        command = next.1;
    }
    assert_eq!(state, SyncState::Done);
    assert_eq!(
        sorted(written),
        vec![
            CountFlush { guild: 10, user: 1, count: 3 },
            CountFlush { guild: 10, user: 2, count: 1 },
            CountFlush { guild: 20, user: 1, count: 1 },
        ]
    );
    assert_eq!(plugin.cache.len(), 0);
    assert_eq!(plugin.count(10, 1), None);
}

#[test]
fn message_counting_a_sync_with_nothing_to_write_is_over_at_once() {
    let mut plugin = MessageCounting::default();
    assert_eq!(plugin.sync_db(), (SyncState::Done, None));
    assert_eq!(plugin.step_sync(SyncState::Done, true), (SyncState::Done, None));
}

#[test]
fn message_counting_a_failed_write_keeps_the_counts() {
    let mut plugin = MessageCounting::default();
    plugin.on_event(&message(Some(10), 1, false));
    plugin.on_event(&message(Some(10), 2, false));
    let (state, command) = plugin.sync_db();
    assert!(command.is_some());
    let (state, command) = plugin.step_sync(state, false);
    assert_eq!(state, SyncState::Failed);
    assert_eq!(command, None);
    assert_eq!(plugin.count(10, 1), Some(1));
    assert_eq!(plugin.count(10, 2), Some(1));
    let (state, command) = plugin.step_sync(state, true);
    assert_eq!(state, SyncState::Failed);
    assert_eq!(command, None);
    assert_eq!(plugin.cache.len(), 2);
}

#[test]
fn message_counting_rows_are_asked_for_in_their_order() {
    let mut plugin = MessageCounting::default();
    let rows = vec![
        CountFlush { guild: 1, user: 1, count: 5 },
        CountFlush { guild: 1, user: 2, count: 6 },
    ];
    plugin.cache.insert((9, 9), 1);
    let state = SyncState::Flushing { rows: rows.clone(), next: 0 };
    let (state, command) = plugin.step_sync(state, true);
    assert_eq!(state, SyncState::Flushing { rows: rows.clone(), next: 1 });
    assert_eq!(command, Some(rows[1]));
    assert_eq!(plugin.cache.len(), 1);
    let (state, command) = plugin.step_sync(state, true);
    assert_eq!(state, SyncState::Done);
    assert_eq!(command, None);
    assert_eq!(plugin.cache.len(), 0);
}
