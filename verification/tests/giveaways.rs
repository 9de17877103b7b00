use gateway_worker::effects::{Effect, Fault, Problem, Reply};
use gateway_worker::event::Event;
use gateway_worker::giveaways::{
    begin_completion, conclude, list_mentions, parse_entrants, select_winners, step_completion,
    GiveawayState, Giveaways, ENTRANT_EXPIRY_SECONDS,
};
use gateway_worker::models::Giveaway;
use gateway_worker::plugin::Plugin;

fn giveaway(winners: usize) -> Giveaway {
    Giveaway {
        _id: "g1".to_string(),
        guild_id: "100".to_string(),
        message_id: "300".to_string(),
        channel_id: "200".to_string(),
        start: 0,
        end: 1_700_000_000_000,
        active: false,
        title: "Raffle".to_string(),
        prize: "A kettle".to_string(),
        winners,
        store_key: "giveaway:g1".to_string(),
    }
}

fn members(list: &[u64]) -> Option<Vec<String>> {
    Some(list.iter().map(|id| id.to_string()).collect())
}

fn distinct(list: &[u64]) -> bool {
    (0..list.len()).all(|i| (i + 1..list.len()).all(|j| list[i] != list[j]))
}

#[test]
fn giveaways_the_plugin_is_called_giveaways() {
    let plugin = Giveaways::default();
    assert_eq!(plugin.name(), "giveaways");
    assert_eq!(plugin.description(), "Schedules giveaways");
    assert!(plugin.on_event(&Event::GuildCreate { id: 1 }).is_empty());
}

#[test]
fn giveaways_a_sync_claims_what_the_store_found() {
    let sweep = Giveaways::default().sync_db(vec![giveaway(1)]);
    assert_eq!(sweep.claim, vec!["g1".to_string()]);
    assert_eq!(sweep.tasks, vec![giveaway(1)]);
    let idle = Giveaways::default().sync_db(Vec::new());
    assert!(idle.claim.is_empty());
    assert!(idle.tasks.is_empty());
}

#[test]
fn giveaways_two_winners_are_drawn_from_five_entrants() {
    let pool = vec![11, 22, 33, 44, 55];
    for _ in 0..50 {
        let winners = select_winners(pool.clone(), 2);
        assert_eq!(winners.len(), 2);
        assert!(distinct(&winners));
        assert!(winners.iter().all(|w| pool.contains(w)));
    }
}

#[test]
fn giveaways_one_entrant_wins_alone_when_two_winners_are_asked_for() {
    assert_eq!(select_winners(vec![11], 2), vec![11]);
}

#[test]
fn giveaways_a_pool_that_is_no_larger_than_the_count_wins_whole_and_in_order() {
    assert_eq!(select_winners(vec![3, 1, 2], 3), vec![3, 1, 2]);
    assert_eq!(select_winners(vec![3, 1, 2], 10), vec![3, 1, 2]);
    assert_eq!(select_winners(Vec::new(), 2), Vec::<u64>::new());
    assert_eq!(select_winners(Vec::new(), 0), Vec::<u64>::new());
}

#[test]
fn giveaways_nobody_is_drawn_when_no_winner_is_asked_for() {
    assert_eq!(select_winners(vec![1, 2, 3], 0), Vec::<u64>::new());
}

#[test]
fn giveaways_every_entrant_can_win() {
    let pool = vec![1, 2, 3];
    let mut seen = vec![false; 3];
    for _ in 0..200 {
        let winners = select_winners(pool.clone(), 1);
        assert_eq!(winners.len(), 1);
        seen[(winners[0] - 1) as usize] = true;
    }
    assert_eq!(seen, vec![true, true, true]);
}

#[test]
fn giveaways_entrants_are_read_from_the_members_of_the_set() {
    assert_eq!(parse_entrants(&members(&[5, 6, 7]).unwrap()), Some(vec![5, 6, 7]));
    assert_eq!(parse_entrants(&Vec::new()), Some(Vec::new()));
    assert_eq!(parse_entrants(&vec!["5".to_string(), "six".to_string()]), None);
    assert_eq!(parse_entrants(&vec!["0".to_string()]), None);
    assert_eq!(parse_entrants(&vec!["".to_string()]), None);
}

#[test]
fn giveaways_winners_are_listed_with_commas() {
    assert_eq!(list_mentions(&vec![]), "");
    assert_eq!(list_mentions(&vec![7]), "<@7>");
    assert_eq!(list_mentions(&vec![7, 8, 9]), "<@7>, <@8>, <@9>");
}

#[test]
fn giveaways_the_end_is_worded_for_the_winners() {
    let conclusion = conclude(&giveaway(2), vec![7, 8]);
    assert_eq!(conclusion.winners, vec![7, 8]);
    assert_eq!(
        conclusion.description,
        "**Raffle**\n\n<t:1700000000>\n\nWinners: <@7>, <@8>"
    );
    assert_eq!(conclusion.announcement, "<@7>, <@8> has won the giveaway for `A kettle`");
}

#[test]
fn giveaways_the_end_without_winners_names_nobody() {
    let conclusion = conclude(&giveaway(2), Vec::new());
    assert!(conclusion.winners.is_empty());
    assert_eq!(conclusion.description, "**Raffle**\n\n<t:1700000000>\n\nNo one won");
    assert_eq!(conclusion.announcement, "Nobody has won the giveaway for `A kettle`");
    assert!(!conclusion.description.contains("<@"));
    assert!(!conclusion.announcement.contains("<@"));
}

#[test]
fn giveaways_a_completion_sleeps_until_the_deadline() {
    let (state, effects) = begin_completion(&giveaway(2), 1_699_999_940);
    assert_eq!(state, GiveawayState::Sleeping);
    assert_eq!(effects, vec![Effect::Sleep { seconds: 60 }]);
    let (_, effects) = begin_completion(&giveaway(2), 1_800_000_000);
    assert_eq!(effects, vec![Effect::Sleep { seconds: 0 }]);
}

#[test]
fn giveaways_a_giveaway_with_entrants_runs_to_the_announcement() {
    let g = giveaway(2);
    let (state, effects) = step_completion(&g, GiveawayState::Sleeping, Reply::Woken);
    assert_eq!(state, GiveawayState::Collecting);
    assert_eq!(effects, vec![Effect::FetchMembers { key: "giveaway:g1".to_string() }]);
    let (state, effects) =
        step_completion(&g, state, Reply::Members(members(&[11, 22, 33, 44, 55])));
    assert_eq!(ENTRANT_EXPIRY_SECONDS, 604_800);
    assert_eq!(
        effects,
        vec![Effect::Expire { key: "giveaway:g1".to_string(), seconds: 604_800 }]
    );
    let winners = match &state {
        GiveawayState::Expiring { winners } => winners.clone(),
        _ => panic!("winners must be drawn"),
    };
    assert_eq!(winners.len(), 2);
    assert!(distinct(&winners));
    assert!(winners.iter().all(|w| [11, 22, 33, 44, 55].contains(w)));
    let (state, effects) = step_completion(&g, state, Reply::Expired(true));
    assert_eq!(state, GiveawayState::Editing { winners: winners.clone() });
    let listed = format!("<@{}>, <@{}>", winners[0], winners[1]);
    assert_eq!(
        effects,
        vec![Effect::EditMessage {
            channel: 200,
            message: 300,
            title: "Giveaway Ended".to_string(),
            description: format!("**Raffle**\n\n<t:1700000000>\n\nWinners: {}", listed),
        }]
    );
    let (state, effects) = step_completion(&g, state, Reply::Edited(true));
    assert_eq!(state, GiveawayState::Done);
    assert_eq!(
        effects,
        vec![Effect::Announce {
            channel: 200,
            content: format!("{} has won the giveaway for `A kettle`", listed),
            jump_url: "https://discord.com/channels/100/200/300".to_string(),
            mentions: winners,
        }]
    );
}

#[test]
fn giveaways_a_giveaway_without_entrants_says_that_no_one_won() {
    let g = giveaway(2);
    let (state, effects) = step_completion(&g, GiveawayState::Collecting, Reply::Members(members(&[])));
    assert_eq!(state, GiveawayState::Editing { winners: Vec::new() });
    assert_eq!(
        effects,
        vec![Effect::EditMessage {
            channel: 200,
            message: 300,
            title: "Giveaway Ended".to_string(),
            description: "**Raffle**\n\n<t:1700000000>\n\nNo one won".to_string(),
        }]
    );
    let (state, effects) = step_completion(&g, state, Reply::Edited(true));
    assert_eq!(state, GiveawayState::Done);
    assert_eq!(
        effects,
        vec![Effect::Announce {
            channel: 200,
            content: "Nobody has won the giveaway for `A kettle`".to_string(),
            jump_url: "https://discord.com/channels/100/200/300".to_string(),
            mentions: Vec::new(),
        }]
    );
}

#[test]
fn giveaways_entrants_that_cannot_be_read_count_as_none_with_a_warning() {
    let g = giveaway(2);
    let (state, effects) = step_completion(&g, GiveawayState::Collecting, Reply::Members(None));
    assert_eq!(state, GiveawayState::Editing { winners: Vec::new() });
    assert_eq!(effects.len(), 2);
    assert_eq!(effects[0], Effect::Log { problem: Problem::MembersUnavailable });
    assert!(matches!(effects[1], Effect::EditMessage { .. }));
}

#[test]
fn giveaways_a_failed_edit_is_logged_and_not_retried() {
    let g = giveaway(2);
    let (state, effects) =
        step_completion(&g, GiveawayState::Editing { winners: vec![5] }, Reply::Edited(false));
    assert_eq!(state, GiveawayState::Done);
    assert_eq!(effects, vec![Effect::Log { problem: Problem::EditFailed }]);
    let (state, effects) = step_completion(&g, state, Reply::Edited(true));
    assert_eq!(state, GiveawayState::Done);
    assert!(effects.is_empty());
}

#[test]
fn giveaways_broken_data_ends_the_one_task() {
    let g = giveaway(2);
    let bad = Some(vec!["12".to_string(), "twelve".to_string()]);
    let (state, effects) = step_completion(&g, GiveawayState::Collecting, Reply::Members(bad));
    assert_eq!(state, GiveawayState::Aborted { fault: Fault::MalformedMember });
    assert_eq!(effects, vec![Effect::Abort { fault: Fault::MalformedMember }]);

    let (state, effects) =
        step_completion(&g, GiveawayState::Expiring { winners: vec![1] }, Reply::Expired(false));
    assert_eq!(state, GiveawayState::Aborted { fault: Fault::StoreCommandFailed });
    assert_eq!(effects, vec![Effect::Abort { fault: Fault::StoreCommandFailed }]);

    let mut broken = giveaway(2);
    broken.channel_id = "nowhere".to_string();
    let (state, effects) =
        step_completion(&broken, GiveawayState::Collecting, Reply::Members(members(&[])));
    assert_eq!(state, GiveawayState::Aborted { fault: Fault::MalformedRecord });
    assert_eq!(effects, vec![Effect::Abort { fault: Fault::MalformedRecord }]);
    let (state, effects) =
        step_completion(&broken, GiveawayState::Editing { winners: vec![] }, Reply::Edited(true));
    assert_eq!(state, GiveawayState::Aborted { fault: Fault::MalformedRecord });
    assert_eq!(effects, vec![Effect::Abort { fault: Fault::MalformedRecord }]);

    let (state, effects) = step_completion(&g, state, Reply::Woken);
    assert_eq!(state, GiveawayState::Aborted { fault: Fault::MalformedRecord });
    assert!(effects.is_empty());
}

#[test]
fn giveaways_replies_that_do_not_fit_are_passed_over() {
    let g = giveaway(2);
    let (state, effects) = step_completion(&g, GiveawayState::Sleeping, Reply::Edited(true));
    assert_eq!(state, GiveawayState::Sleeping);
    assert!(effects.is_empty());
    let (state, effects) = step_completion(&g, GiveawayState::Collecting, Reply::Woken);
    assert_eq!(state, GiveawayState::Collecting);
    assert!(effects.is_empty());
}
