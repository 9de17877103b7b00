use gateway_worker::dispatch::{
    begin, isolate, step, DispatchAction, DispatchInput, DispatchState, Failure, Note,
};
use gateway_worker::event::{ChatMessage, Event, Reaction, UserRef};
use gateway_worker::giveaways::Giveaways;
use gateway_worker::plugin_config::{PluginConfig, PluginHandle};
use gateway_worker::timers::Timers;
use gateway_worker::utility::Utility;
use std::sync::Arc;

fn user(id: u64) -> UserRef {
    UserRef { id, name: format!("user{}", id), bot: false }
}

fn message(guild_id: Option<u64>) -> ChatMessage {
    ChatMessage {
        id: 900,
        channel_id: 800,
        guild_id,
        author: user(1),
        content: "hello".to_string(),
        timestamp: 1_700_000_000,
        embeds: Vec::new(),
        mentions: Vec::new(),
        reference: None,
    }
}

fn reaction(guild_id: Option<u64>) -> Reaction {
    Reaction { guild_id, channel_id: 800, message_id: 900, member_bot: None }
}

fn registry() -> PluginConfig {
    let plugins: Vec<PluginHandle> = vec![
        Arc::new(Box::new(Timers::default())),
        Arc::new(Box::new(Giveaways::default())),
        Arc::new(Box::new(Utility::default())),
    ];
    PluginConfig::new(Arc::new(plugins))
}

fn names(list: &[&str]) -> Option<Vec<String>> {
    Some(list.iter().map(|s| s.to_string()).collect())
}

#[test]
fn dispatch_every_scoped_kind_names_its_guild() {
    assert_eq!(Event::MessageCreate(message(Some(5))).scope(), Some(5));
    assert_eq!(Event::MessageUpdate { guild_id: Some(6) }.scope(), Some(6));
    assert_eq!(Event::GuildUpdate { id: 7 }.scope(), Some(7));
    assert_eq!(Event::GuildCreate { id: 8 }.scope(), Some(8));
    assert_eq!(Event::GuildDelete { id: 9, unavailable: true }.scope(), Some(9));
    assert_eq!(Event::MemberAdd { guild_id: 10, user: user(2) }.scope(), Some(10));
    assert_eq!(Event::MemberRemove { guild_id: 11, user: user(2) }.scope(), Some(11));
    assert_eq!(Event::InviteCreate { guild_id: 12, code: "abc".to_string() }.scope(), Some(12));
    assert_eq!(Event::InviteDelete { guild_id: 13, code: "abc".to_string() }.scope(), Some(13));
    assert_eq!(Event::ReactionAdd(reaction(Some(14))).scope(), Some(14));
}

#[test]
fn dispatch_events_without_a_guild_have_no_scope() {
    assert_eq!(Event::MessageCreate(message(None)).scope(), None);
    assert_eq!(Event::MessageUpdate { guild_id: None }.scope(), None);
    assert_eq!(Event::ReactionAdd(reaction(None)).scope(), None);
    assert_eq!(Event::ShardConnected.scope(), None);
    assert_eq!(Event::MemberUpdate { guild_id: 15 }.scope(), None);
    assert_eq!(Event::Other.scope(), None);
    assert!(!Event::Other.is_known());
    assert!(Event::ShardConnected.is_known());
    assert!(Event::MemberUpdate { guild_id: 15 }.is_known());
}

fn ignored(event: Event) -> Option<Note> {
    let (state, action) = begin::<String>(&event);
    assert_eq!(state, DispatchState::Finished);
    match action {
        DispatchAction::Ignore { note } => note,
        _ => panic!("an event without a guild must be dropped"),
    }
}

#[test]
fn dispatch_an_event_without_scope_invokes_no_plugin() {
    assert_eq!(ignored(Event::MessageCreate(message(None))), None);
    assert_eq!(ignored(Event::MessageUpdate { guild_id: None }), None);
    assert_eq!(ignored(Event::ReactionAdd(reaction(None))), None);
    assert_eq!(ignored(Event::MemberUpdate { guild_id: 3 }), None);
    assert_eq!(ignored(Event::ShardConnected), Some(Note::Connected));
    assert_eq!(ignored(Event::Other), Some(Note::UnknownKind));
}

#[test]
fn dispatch_a_dropped_event_stays_dropped() {
    let config = registry();
    let (state, _) = begin::<String>(&Event::Other);
    let (state, action) =
        step(&config, state, DispatchInput::<String>::Enablement(names(&["timers"])));
    assert_eq!(state, DispatchState::Finished);
    assert!(matches!(action, DispatchAction::Nothing));
    let (state, action) = step(&config, state, DispatchInput::Outcomes(vec![Ok::<(), String>(())]));
    assert_eq!(state, DispatchState::Finished);
    assert!(matches!(action, DispatchAction::Nothing));
}

#[test]
fn dispatch_a_scoped_event_is_looked_up_then_fanned_out() {
    let config = registry();
    let event = Event::MessageCreate(message(Some(77)));
    let (state, action) = begin::<String>(&event);
    assert_eq!(state, DispatchState::Resolving { guild: 77 });
    assert!(matches!(action, DispatchAction::Lookup { guild: 77 }));
    let (state, action) = step(
        &config,
        state,
        DispatchInput::<String>::Enablement(names(&["utility", "ghost", "timers"])),
    );
    assert_eq!(state, DispatchState::Invoking { guild: 77, names: vec!["utility", "timers"] });
    match action {
        DispatchAction::Invoke { guild, plugins, lookup_failed } => {
            assert_eq!(guild, 77);
            assert!(!lookup_failed);
            assert_eq!(plugins.len(), 2);
            assert_eq!(plugins[0].name(), "utility");
            assert_eq!(plugins[1].name(), "timers");
        }
        _ => panic!("the enabled plugins must be invoked"),
    }
    let (state, action) = step(
        &config,
        state,
        DispatchInput::Outcomes(vec![Err("boom".to_string()), Ok(())]),
    );
    assert_eq!(state, DispatchState::Finished);
    match action {
        DispatchAction::Report { failures, succeeded } => {
            assert_eq!(failures, vec![Failure { plugin: "utility", error: "boom".to_string() }]);
            assert_eq!(succeeded, vec!["timers"]);
        }
        _ => panic!("the outcomes must be reported"),
    }
}

#[test]
fn dispatch_a_failed_lookup_fans_out_to_nobody_and_warns() {
    let config = registry();
    let (state, _) = begin::<String>(&Event::GuildCreate { id: 4 });
    let (state, action) = step(&config, state, DispatchInput::<String>::Enablement(None));
    assert_eq!(state, DispatchState::Invoking { guild: 4, names: vec![] });
    match action {
        DispatchAction::Invoke { guild, plugins, lookup_failed } => {
            assert_eq!(guild, 4);
            assert!(plugins.is_empty());
            assert!(lookup_failed);
        }
        _ => panic!("a failed lookup resolves to no plugins"),
    }
    let (state, action) = step(&config, state, DispatchInput::<String>::Outcomes(vec![]));
    assert_eq!(state, DispatchState::Finished);
    match action {
        DispatchAction::Report { failures, succeeded } => {
            assert!(failures.is_empty());
            assert!(succeeded.is_empty());
        }
        _ => panic!("an empty fan-out still ends with a report"),
    }
}

#[test]
fn dispatch_inputs_that_do_not_fit_are_passed_over() {
    let config = registry();
    let (state, _) = begin::<u8>(&Event::GuildCreate { id: 4 });
    let (state, action) = step(&config, state, DispatchInput::Outcomes(vec![Ok::<(), u8>(())]));
    assert_eq!(state, DispatchState::Resolving { guild: 4 });
    assert!(matches!(action, DispatchAction::Nothing));
    let (state, _) = step(&config, state, DispatchInput::<u8>::Enablement(names(&["timers"])));
    let (state, action) = step(&config, state, DispatchInput::Outcomes(vec![Ok::<(), u8>(()), Err(1)]));
    assert_eq!(state, DispatchState::Invoking { guild: 4, names: vec!["timers"] });
    assert!(matches!(action, DispatchAction::Nothing));
    let (state, action) = step(&config, state, DispatchInput::<u8>::Enablement(names(&["utility"])));
    assert_eq!(state, DispatchState::Invoking { guild: 4, names: vec!["timers"] });
    assert!(matches!(action, DispatchAction::Nothing));
}

#[test]
fn dispatch_a_failing_plugin_does_not_hide_the_success_of_another() {
    let forward = isolate(&vec!["a", "b"], vec![Err("a failed"), Ok(())]);
    assert_eq!(forward.0, vec![Failure { plugin: "a", error: "a failed" }]);
    assert_eq!(forward.1, vec!["b"]);
    let backward = isolate(&vec!["b", "a"], vec![Ok(()), Err("a failed")]);
    assert_eq!(backward.0, forward.0);
    assert_eq!(backward.1, forward.1);
}

#[test]
fn dispatch_every_outcome_is_reported_in_invocation_order() {
    let (failures, succeeded) = isolate(
        &vec!["a", "b", "c", "d", "e"],
        vec![Ok(()), Err(1), Err(2), Ok(()), Err(3)],
    );
    assert_eq!(
        failures,
        vec![
            Failure { plugin: "b", error: 1 },
            Failure { plugin: "c", error: 2 },
            Failure { plugin: "e", error: 3 },
        ]
    );
    assert_eq!(succeeded, vec!["a", "d"]);
    let (failures, succeeded) = isolate::<u8>(&vec![], vec![]);
    assert!(failures.is_empty());
    assert!(succeeded.is_empty());
}
