use gateway_worker::event::{Event, UserRef};
use gateway_worker::invite_counting::{
    classify_join, find_used_invite, step, tally_change, InviteCommand, InviteCounting,
    InviteFault, InviteNote, InviteReply, InviteState, InviteUse, InviterRecord, JoinKind,
    JoinRecord, Keep, TallyChange,
};
use gateway_worker::plugin::Plugin;

fn invite(code: &str, uses: Option<u64>) -> InviteUse {
    InviteUse { code: code.to_string(), uses }
}

fn invites(list: &[(&str, u64)]) -> Vec<InviteUse> {
    list.iter().map(|(code, uses)| invite(code, Some(*uses))).collect()
}

fn user(id: u64, bot: bool) -> UserRef {
    UserRef { id, name: format!("user{}", id), bot }
}

/// The same search, written with the iterator adaptors of the standard
/// library: one pass over the stored invites, shared by all fresh ones.
fn reference(fresh: &[InviteUse], cached: &[InviteUse]) -> Vec<usize> {
    let mut cache = cached.iter();
    fresh
        .iter()
        .enumerate()
        .filter(|(_, c)| {
            c.uses.unwrap_or_default()
                == cache
                    .find(|i| i.code == c.code)
                    .map(|o| o.uses.expect("uses"))
                    .unwrap_or_default()
                    + 1
        })
        .map(|(at, _)| at)
        .collect()
}

#[test]
fn invite_counting_the_plugin_is_called_invite_counting() {
    let plugin = InviteCounting::default();
    assert_eq!(plugin.name(), "invite_counting");
    assert_eq!(plugin.description(), "Tracks the invites for a server");
    assert!(plugin.sync_db().is_empty());
}

#[test]
fn invite_counting_the_invite_that_went_up_by_one_was_used() {
    let cached = invites(&[("a", 1), ("b", 5), ("c", 0)]);
    let fresh = invites(&[("a", 1), ("b", 6), ("c", 0)]);
    assert_eq!(find_used_invite(&fresh, &cached), Ok(Some(1)));
}

#[test]
fn invite_counting_no_invite_or_several_cannot_be_told() {
    let cached = invites(&[("a", 1), ("b", 5)]);
    assert_eq!(find_used_invite(&invites(&[("a", 1), ("b", 5)]), &cached), Ok(None));
    assert_eq!(find_used_invite(&invites(&[("a", 2), ("b", 6)]), &cached), Ok(None));
    assert_eq!(find_used_invite(&invites(&[("a", 3)]), &cached), Ok(None));
    assert_eq!(find_used_invite(&Vec::new(), &cached), Ok(None));
}

#[test]
fn invite_counting_an_unknown_code_counts_as_stored_without_use() {
    let cached = invites(&[("a", 1)]);
    assert_eq!(find_used_invite(&invites(&[("new", 1)]), &cached), Ok(Some(0)));
    assert_eq!(find_used_invite(&invites(&[("new", 2)]), &cached), Ok(None));
    assert_eq!(find_used_invite(&invites(&[("new", 1)]), &Vec::new()), Ok(Some(0)));
}

#[test]
fn invite_counting_a_fresh_invite_without_count_counts_as_unused() {
    let cached = invites(&[("a", 0)]);
    assert_eq!(find_used_invite(&vec![invite("a", None)], &cached), Ok(None));
    assert_eq!(find_used_invite(&vec![invite("a", None), invite("z", Some(1))], &cached), Ok(Some(1)));
}

#[test]
fn invite_counting_the_stored_invites_are_read_once_front_to_back() {
    let cached = invites(&[("a", 1), ("b", 5)]);
    // "b" is found at the second place; the search for "a" goes on behind it
    // and finds nothing, so "a" counts as stored without use.
    let fresh = invites(&[("b", 5), ("a", 1)]);
    assert_eq!(find_used_invite(&fresh, &cached), Ok(Some(1)));
    let fresh = invites(&[("b", 6), ("a", 2)]);
    assert_eq!(find_used_invite(&fresh, &cached), Ok(Some(0)));
    let fresh = invites(&[("zzz", 9), ("a", 2)]);
    assert_eq!(find_used_invite(&fresh, &cached), Ok(None));
}

#[test]
fn invite_counting_a_stored_invite_without_count_is_a_fault() {
    let cached = vec![invite("a", Some(1)), invite("b", None)];
    assert_eq!(find_used_invite(&invites(&[("b", 1)]), &cached), Err(InviteFault::MissingUses));
    assert_eq!(find_used_invite(&invites(&[("a", 2)]), &cached), Ok(Some(0)));
    assert_eq!(
        find_used_invite(&invites(&[("a", 2), ("b", 1)]), &cached),
        Err(InviteFault::MissingUses)
    );
}

#[test]
fn invite_counting_the_greatest_count_cannot_go_up() {
    let cached = invites(&[("a", u64::MAX)]);
    assert_eq!(find_used_invite(&invites(&[("a", 0)]), &cached), Ok(None));
    assert_eq!(find_used_invite(&invites(&[("a", u64::MAX)]), &cached), Ok(None));
    let cached = invites(&[("a", u64::MAX - 1)]);
    assert_eq!(find_used_invite(&invites(&[("a", u64::MAX)]), &cached), Ok(Some(0)));
}

#[test]
fn invite_counting_the_search_agrees_with_the_iterator_form() {
    let codes = ["a", "b", "c"];
    let mut cases: Vec<(Vec<InviteUse>, Vec<InviteUse>)> = Vec::new();
    for first in 0..3 {
        for second in 0..3 {
            for bump in 0..3u64 {
                let cached = invites(&[("a", 1), ("b", 2), ("c", 3), ("a", 7)]);
                let fresh = vec![
                    invite(codes[first], Some(1 + bump)),
                    invite(codes[second], Some(2 + bump)),
                    invite("a", Some(8)),
                ];
                cases.push((fresh, cached));
            }
        }
    }
    for (fresh, cached) in cases {
        let possible = reference(&fresh, &cached);
        let expected = if possible.len() == 1 { Some(possible[0]) } else { None };
        assert_eq!(find_used_invite(&fresh, &cached), Ok(expected));
    }
}

#[test]
fn invite_counting_joins_are_told_apart() {
    let none: Vec<String> = Vec::new();
    assert_eq!(classify_join(5, 9, &none, &Vec::new()), Ok(JoinKind::Regular));
    assert_eq!(classify_join(5, 5, &none, &Vec::new()), Ok(JoinKind::SelfInvite));
    assert_eq!(classify_join(5, 9, &none, &vec![Some(4), Some(5)]), Ok(JoinKind::Known));
    assert_eq!(classify_join(5, 5, &none, &vec![Some(5)]), Ok(JoinKind::Known));
    let left = vec!["4".to_string(), "5".to_string()];
    assert_eq!(classify_join(5, 9, &left, &vec![Some(5)]), Ok(JoinKind::Rejoin));
    assert_eq!(classify_join(5, 5, &left, &Vec::new()), Ok(JoinKind::Rejoin));
    assert_eq!(classify_join(6, 9, &left, &Vec::new()), Ok(JoinKind::Regular));
    assert_eq!(classify_join(5, 9, &vec!["05".to_string()], &Vec::new()), Ok(JoinKind::Regular));
    assert_eq!(
        classify_join(5, 9, &left, &vec![Some(5), None]),
        Err(InviteFault::MissingRecordedInviter)
    );
}

#[test]
fn invite_counting_each_kind_of_join_changes_the_tally_its_way() {
    assert_eq!(
        tally_change(JoinKind::Rejoin),
        TallyChange { regular: 0, fake: 0, keep_invite: Keep::Once, forget_leave: true }
    );
    assert_eq!(
        tally_change(JoinKind::Known),
        TallyChange { regular: 1, fake: -1, keep_invite: Keep::No, forget_leave: false }
    );
    assert_eq!(
        tally_change(JoinKind::SelfInvite),
        TallyChange { regular: 1, fake: 1, keep_invite: Keep::Always, forget_leave: false }
    );
    assert_eq!(
        tally_change(JoinKind::Regular),
        TallyChange { regular: 1, fake: 0, keep_invite: Keep::Always, forget_leave: false }
    );
}

#[test]
fn invite_counting_invites_that_come_and_go_are_written_through() {
    let plugin = InviteCounting::default();
    let (state, command) =
        plugin.on_event(&Event::InviteCreate { guild_id: 7, code: "abc".to_string() });
    assert_eq!(state, InviteState::Writing);
    assert_eq!(command, Some(InviteCommand::AddInvite { guild: 7 }));
    let (state, command) = step(state, InviteReply::Written);
    assert_eq!(state, InviteState::Done);
    assert_eq!(command, None);

    let (state, command) =
        plugin.on_event(&Event::InviteDelete { guild_id: 7, code: "abc".to_string() });
    assert_eq!(state, InviteState::Writing);
    assert_eq!(command, Some(InviteCommand::RemoveInvite { guild: 7, code: "abc".to_string() }));
    let (state, command) = step(state, InviteReply::Failed);
    assert_eq!(state, InviteState::Failed);
    assert_eq!(command, None);
}

#[test]
fn invite_counting_other_events_and_bots_are_passed_over() {
    let plugin = InviteCounting::default();
    assert_eq!(plugin.on_event(&Event::GuildCreate { id: 1 }), (InviteState::Done, None));
    assert_eq!(plugin.on_event(&Event::Other), (InviteState::Done, None));
    assert_eq!(
        plugin.on_event(&Event::MemberAdd { guild_id: 7, user: user(5, true) }),
        (InviteState::Done, None)
    );
}

#[test]
fn invite_counting_a_join_is_traced_to_its_inviter() {
    let plugin = InviteCounting::default();
    let (state, command) = plugin.on_event(&Event::MemberAdd { guild_id: 7, user: user(5, false) });
    assert_eq!(state, InviteState::FetchingInvites { guild: 7, member: 5 });
    assert_eq!(command, Some(InviteCommand::FetchGuildInvites { guild: 7 }));

    let fresh = invites(&[("a", 1), ("b", 6)]);
    let cached = invites(&[("a", 1), ("b", 5)]);
    let (state, command) = step(state, InviteReply::GuildInvites(invites(&[("a", 1), ("b", 6)])));
    assert_eq!(state, InviteState::FindingStorage { guild: 7, member: 5, fresh: invites(&[("a", 1), ("b", 6)]) });
    assert_eq!(command, Some(InviteCommand::FindGuildStorage { guild: 7 }));

    let (state, command) = step(state, InviteReply::GuildStorage(Some(invites(&[("a", 1), ("b", 5)]))));
    assert_eq!(state, InviteState::StoringInvites { guild: 7, member: 5, fresh, cached });
    assert_eq!(command, Some(InviteCommand::StoreGuildInvites { guild: 7 }));

    let (state, command) = step(state, InviteReply::Written);
    assert_eq!(state, InviteState::FetchingInvite { guild: 7, member: 5 });
    assert_eq!(command, Some(InviteCommand::FetchInvite { code: "b".to_string() }));

    let (state, command) = step(state, InviteReply::Invite { inviter: Some(9) });
    assert_eq!(state, InviteState::OpeningRecord { guild: 7, member: 5, inviter: 9 });
    assert_eq!(command, Some(InviteCommand::OpenInviterRecord { inviter: 9, guild: 7 }));

    let record = InviterRecord { leaves: vec!["5".to_string()], recorded: vec![Some(9)] };
    let (state, command) = step(state, InviteReply::Record(Some(record)));
    assert_eq!(state, InviteState::Updating { guild: 7, member: 5, inviter: 9 });
    assert_eq!(
        command,
        Some(InviteCommand::UpdateInviterRecord {
            inviter: 9,
            guild: 7,
            member: 5,
            change: TallyChange { regular: 0, fake: 0, keep_invite: Keep::Once, forget_leave: true },
        })
    );

    let (state, command) = step(state, InviteReply::Written);
    assert_eq!(state, InviteState::Writing);
    assert_eq!(command, Some(InviteCommand::RecordJoin { guild: 7, member: 5, inviter: 9 }));
    let (state, command) = step(state, InviteReply::Written);
    assert_eq!(state, InviteState::Done);
    assert_eq!(command, None);
}

#[test]
fn invite_counting_a_join_that_cannot_be_traced_is_noted() {
    let state = InviteState::StoringInvites {
        guild: 7,
        member: 5,
        fresh: invites(&[("a", 2), ("b", 6)]),
        cached: invites(&[("a", 1), ("b", 5)]),
    };
    let (state, command) = step(state, InviteReply::Written);
    assert_eq!(state, InviteState::Done);
    assert_eq!(command, Some(InviteCommand::Note { note: InviteNote::CannotTellInvite }));
}

#[test]
fn invite_counting_nothing_is_compared_without_fresh_or_stored_invites() {
    let state = InviteState::FindingStorage { guild: 7, member: 5, fresh: Vec::new() };
    assert_eq!(
        step(state, InviteReply::GuildStorage(Some(invites(&[("a", 1)])))),
        (InviteState::Done, None)
    );
    let state = InviteState::FindingStorage { guild: 7, member: 5, fresh: invites(&[("a", 1)]) };
    let (state, command) = step(state, InviteReply::GuildStorage(None));
    assert_eq!(
        state,
        InviteState::StoringInvites {
            guild: 7,
            member: 5,
            fresh: invites(&[("a", 1)]),
            cached: Vec::new(),
        }
    );
    assert_eq!(command, Some(InviteCommand::StoreGuildInvites { guild: 7 }));
    assert_eq!(step(state, InviteReply::Written), (InviteState::Done, None));
}

#[test]
fn invite_counting_broken_data_is_a_fault() {
    let state = InviteState::FetchingInvite { guild: 7, member: 5 };
    assert_eq!(
        step(state, InviteReply::Invite { inviter: None }),
        (InviteState::Crashed { fault: InviteFault::MissingInviter }, None)
    );
    let state = InviteState::OpeningRecord { guild: 7, member: 5, inviter: 9 };
    assert_eq!(
        step(state, InviteReply::Record(None)),
        (InviteState::Crashed { fault: InviteFault::MissingRecord }, None)
    );
    let state = InviteState::OpeningRecord { guild: 7, member: 5, inviter: 9 };
    let record = InviterRecord { leaves: Vec::new(), recorded: vec![None] };
    assert_eq!(
        step(state, InviteReply::Record(Some(record))),
        (InviteState::Crashed { fault: InviteFault::MissingRecordedInviter }, None)
    );
    let state = InviteState::StoringInvites {
        guild: 7,
        member: 5,
        fresh: invites(&[("a", 2)]),
        cached: vec![invite("a", None)],
    };
    assert_eq!(
        step(state, InviteReply::Written),
        (InviteState::Crashed { fault: InviteFault::MissingUses }, None)
    );
    assert_eq!(
        step(InviteState::Crashed { fault: InviteFault::MissingUses }, InviteReply::Written),
        (InviteState::Crashed { fault: InviteFault::MissingUses }, None)
    );
}

#[test]
fn invite_counting_a_failed_request_ends_the_event_with_that_failure() {
    for state in [
        InviteState::Writing,
        InviteState::FetchingInvites { guild: 1, member: 2 },
        InviteState::FetchingInvite { guild: 1, member: 2 },
        InviteState::OpeningRecord { guild: 1, member: 2, inviter: 3 },
        InviteState::Updating { guild: 1, member: 2, inviter: 3 },
        InviteState::FindingJoin { member: 2 },
    ] {
        assert_eq!(step(state, InviteReply::Failed), (InviteState::Failed, None));
    }
    assert_eq!(step(InviteState::Done, InviteReply::Failed), (InviteState::Done, None));
    assert_eq!(step(InviteState::Failed, InviteReply::Written), (InviteState::Failed, None));
}

#[test]
fn invite_counting_a_leave_is_counted_against_the_inviter() {
    let plugin = InviteCounting::default();
    let (state, command) =
        plugin.on_event(&Event::MemberRemove { guild_id: 7, user: user(5, false) });
    assert_eq!(state, InviteState::FindingJoin { member: 5 });
    assert_eq!(command, Some(InviteCommand::FindJoin { guild: 7, member: 5 }));
    let join = JoinRecord { guild_id: "7".to_string(), inviter_id: Some("9".to_string()) };
    let (state, command) = step(state, InviteReply::Join(Some(join)));
    assert_eq!(state, InviteState::Writing);
    assert_eq!(
        command,
        Some(InviteCommand::AddLeave { inviter: "9".to_string(), guild: "7".to_string(), member: 5 })
    );

    let unknown = JoinRecord { guild_id: "7".to_string(), inviter_id: None };
    assert_eq!(
        step(InviteState::FindingJoin { member: 5 }, InviteReply::Join(Some(unknown))),
        (InviteState::Done, None)
    );
    assert_eq!(
        step(InviteState::FindingJoin { member: 5 }, InviteReply::Join(None)),
        (InviteState::Done, None)
    );
}

#[test]
fn invite_counting_replies_that_do_not_fit_are_passed_over() {
    assert_eq!(
        step(InviteState::Writing, InviteReply::Invite { inviter: Some(1) }),
        (InviteState::Writing, None)
    );
    assert_eq!(
        step(InviteState::FindingJoin { member: 5 }, InviteReply::Written),
        (InviteState::FindingJoin { member: 5 }, None)
    );
}
