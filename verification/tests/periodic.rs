use gateway_worker::dispatch::Failure;
use gateway_worker::giveaways::Giveaways;
use gateway_worker::periodic::{
    begin, step, DriverCommand, DriverInput, DriverState, SYNC_PERIOD_SECONDS,
};
use gateway_worker::plugin_config::{PluginConfig, PluginHandle};
use gateway_worker::server_indexer::ServerIndexer;
use gateway_worker::timers::Timers;
use std::sync::Arc;

fn registry() -> PluginConfig {
    let plugins: Vec<PluginHandle> = vec![
        Arc::new(Box::new(Timers::default())),
        Arc::new(Box::new(Giveaways::default())),
        Arc::new(Box::new(ServerIndexer())),
    ];
    PluginConfig::new(Arc::new(plugins))
}

fn synced(command: &DriverCommand) -> &'static str {
    match command {
        DriverCommand::Sync { plugin } => plugin.name(),
        _ => panic!("a plugin must be synced"),
    }
}

fn sleeps(command: &DriverCommand) -> bool {
    matches!(command, DriverCommand::Sleep { seconds: 15 })
}

#[test]
fn periodic_the_driver_rests_first() {
    assert_eq!(SYNC_PERIOD_SECONDS, 15);
    let (state, command) = begin();
    assert_eq!(state, DriverState::Resting);
    assert!(sleeps(&command));
}

#[test]
fn periodic_a_round_syncs_every_plugin_in_turn_whatever_fails() {
    let config = registry();
    let (state, action) = step(&config, DriverState::Resting, DriverInput::<String>::Woken);
    assert_eq!(state, DriverState::Syncing { next: 0 });
    assert_eq!(action.failure, None);
    assert_eq!(synced(&action.command), "timers");

    let (state, action) = step(&config, state, DriverInput::Synced(Err("store down".to_string())));
    assert_eq!(state, DriverState::Syncing { next: 1 });
    assert_eq!(
        action.failure,
        Some(Failure { plugin: "timers", error: "store down".to_string() })
    );
    assert_eq!(synced(&action.command), "giveaways");

    let (state, action) = step(&config, state, DriverInput::<String>::Synced(Ok(())));
    assert_eq!(state, DriverState::Syncing { next: 2 });
    assert_eq!(action.failure, None);
    assert_eq!(synced(&action.command), "server_indexer");

    let (state, action) = step(&config, state, DriverInput::Synced(Err("again".to_string())));
    assert_eq!(state, DriverState::Resting);
    assert_eq!(
        action.failure,
        Some(Failure { plugin: "server_indexer", error: "again".to_string() })
    );
    assert!(sleeps(&action.command));
}

#[test]
fn periodic_a_round_without_plugins_is_a_rest() {
    let config = PluginConfig::new(Arc::new(Vec::new()));
    let (state, action) = step(&config, DriverState::Resting, DriverInput::<u8>::Woken);
    assert_eq!(state, DriverState::Resting);
    assert!(sleeps(&action.command));
}

#[test]
fn periodic_inputs_that_do_not_fit_are_passed_over() {
    let config = registry();
    let (state, action) = step(&config, DriverState::Resting, DriverInput::<u8>::Synced(Ok(())));
    assert_eq!(state, DriverState::Resting);
    assert!(matches!(action.command, DriverCommand::Nothing));
    let (state, action) = step(&config, DriverState::Syncing { next: 1 }, DriverInput::<u8>::Woken);
    assert_eq!(state, DriverState::Syncing { next: 1 });
    assert!(matches!(action.command, DriverCommand::Nothing));
    assert_eq!(action.failure, None);
    let (state, action) =
        step(&config, DriverState::Syncing { next: 9 }, DriverInput::<u8>::Synced(Err(1)));
    assert_eq!(state, DriverState::Resting);
    assert_eq!(action.failure, None);
    assert!(sleeps(&action.command));
}
