use gateway_worker::giveaways::Giveaways;
use gateway_worker::plugin::Plugin;
use gateway_worker::plugin_config::{PluginConfig, PluginHandle};
use gateway_worker::server_indexer::ServerIndexer;
use gateway_worker::timers::Timers;
use gateway_worker::utility::Utility;
use std::sync::Arc;

fn handle<P: Plugin + 'static>(plugin: P) -> PluginHandle {
    Arc::new(Box::new(plugin))
}

fn registry() -> PluginConfig {
    PluginConfig::new(Arc::new(vec![
        handle(Timers::default()),
        handle(Giveaways::default()),
        handle(ServerIndexer()),
        handle(Utility::default()),
    ]))
}

fn names(targets: &[PluginHandle]) -> Vec<&'static str> {
    targets.iter().map(|p| p.name()).collect()
}

fn enabled(list: &[&str]) -> Option<Vec<String>> {
    Some(list.iter().map(|s| s.to_string()).collect())
}

#[test]
fn registry_resolve_keeps_a_name_that_is_enabled_twice() {
    let config = registry();
    let targets = config.get_plugins(&enabled(&["timers", "timers"]));
    assert_eq!(names(&targets), vec!["timers", "timers"]);
}

#[test]
fn registry_resolve_returns_enabled_plugins_in_enabled_order() {
    let config = registry();
    let targets = config.get_plugins(&enabled(&["giveaways", "timers"]));
    assert_eq!(names(&targets), vec!["giveaways", "timers"]);
}

#[test]
fn registry_resolve_drops_unknown_names() {
    let config = registry();
    let targets = config.get_plugins(&enabled(&["nonsense", "utility", "Timers", ""]));
    assert_eq!(names(&targets), vec!["utility"]);
}

#[test]
fn registry_resolve_fails_open_to_no_plugins() {
    let config = registry();
    assert!(config.get_plugins(&None).is_empty());
    assert!(config.get_plugins(&enabled(&[])).is_empty());
}

#[test]
fn registry_resolve_does_not_add_the_whole_registry() {
    let config = registry();
    let targets = config.get_plugins(&enabled(&["server_indexer"]));
    assert_eq!(targets.len(), 1);
    assert_eq!(targets[0].name(), "server_indexer");
}

#[test]
fn registry_resolve_hands_out_the_registered_handles() {
    let config = registry();
    let targets = config.get_plugins(&enabled(&["timers"]));
    assert!(Arc::ptr_eq(&targets[0], &config.plugins[0]));
}

#[test]
fn registry_find_gives_the_first_position_of_a_name() {
    let config = PluginConfig::new(Arc::new(vec![
        handle(Timers::default()),
        handle(Giveaways::default()),
        handle(Timers::default()),
    ]));
    assert_eq!(config.find(&"timers".to_string()), Some(0));
    assert_eq!(config.find(&"giveaways".to_string()), Some(1));
    assert_eq!(config.find(&"utility".to_string()), None);
    assert!(!config.has_distinct_names());
    assert!(registry().has_distinct_names());
}

#[test]
fn registry_plugins_ask_for_no_intents_by_default() {
    assert_eq!(Timers::default().intents(), 0);
    assert_eq!(Giveaways::default().intents(), 0);
}
