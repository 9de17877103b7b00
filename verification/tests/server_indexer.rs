use gateway_worker::event::Event;
use gateway_worker::plugin::Plugin;
use gateway_worker::server_indexer::{IndexCommand, ServerIndexer};

#[test]
fn server_indexer_the_plugin_is_called_server_indexer() {
    let plugin = ServerIndexer();
    assert_eq!(plugin.name(), "server_indexer");
    assert_eq!(plugin.description(), "Syncs database information needed for workers cmd handling");
    assert!(plugin.sync_db().is_empty());
}

#[test]
fn server_indexer_created_and_updated_guilds_are_stored() {
    let plugin = ServerIndexer();
    assert_eq!(
        plugin.on_event(&Event::GuildCreate { id: 5 }),
        Some(IndexCommand::Upsert { guild: 5 })
    );
    assert_eq!(
        plugin.on_event(&Event::GuildUpdate { id: 6 }),
        Some(IndexCommand::Upsert { guild: 6 })
    );
}

#[test]
fn server_indexer_a_deleted_guild_is_removed_unless_it_is_only_unavailable() {
    let plugin = ServerIndexer();
    assert_eq!(
        plugin.on_event(&Event::GuildDelete { id: 5, unavailable: false }),
        Some(IndexCommand::Delete { guild: 5 })
    );
    assert_eq!(plugin.on_event(&Event::GuildDelete { id: 5, unavailable: true }), None);
}

#[test]
fn server_indexer_other_events_write_nothing() {
    let plugin = ServerIndexer();
    assert_eq!(plugin.on_event(&Event::ShardConnected), None);
    assert_eq!(plugin.on_event(&Event::MemberUpdate { guild_id: 5 }), None);
    assert_eq!(plugin.on_event(&Event::MessageUpdate { guild_id: Some(5) }), None);
}
