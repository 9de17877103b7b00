//! The giveaway plugin: sweeping for giveaways that are about to end, and
//! ending each one by drawing its winners.

use crate::effects::{jump_url, listed_members, make_jump_url, member_warnings};
use crate::effects::{one_request_at_a_time, push_user_mention, user_mention};
use crate::effects::{Effect, EffectView, Fault, Problem, Reply};
use crate::event::Event;
use crate::models::{content_text, remaining_seconds, Giveaway};
use crate::plugin::Plugin;
use crate::scheduler::{ids_of, plan_sweep, Sweep};
use crate::text::{parse_id, parse_id_spec};
use crate::trusted::{choose_multiple, drawn_at, epoch_seconds, is_sample_of};
use vstd::prelude::*;
use vstd::string::StringExecFns;

verus! {

/// For how long the entrants of an ended giveaway are kept: seven days.
pub const ENTRANT_EXPIRY_SECONDS: u64 = 604_800;

/// The plugin that schedules giveaways.
#[derive(Clone, Copy, Debug)]
pub struct Giveaways {}

impl Plugin for Giveaways {
    open spec fn spec_name(&self) -> Seq<char> {
        "giveaways"@
    }

    fn name(&self) -> (name: &'static str) {
        "giveaways"
    }

    fn description(&self) -> (text: &'static str) {
        "Schedules giveaways"
    }

    open spec fn spec_description(&self) -> Seq<char> {
        "Schedules giveaways"@
    }
}

impl Default for Giveaways {
    fn default() -> Self {
        Giveaways {  }
    }
}

impl Giveaways {
    /// Giveaways react to no event: entries are taken elsewhere.
    pub fn on_event(&self, _event: &Event) -> (effects: Vec<Effect>)
        ensures
            effects@.len() == 0,
    {
        Vec::new()
    }

    /// The periodic path: plans the sweep over the giveaways that the store
    /// found due. Each is completed by a task of its own that starts with
    /// [`begin_completion`]; all of them are claimed together.
    pub fn sync_db(&self, found: Vec<Giveaway>) -> (sweep: Sweep<Giveaway>)
        ensures
            sweep.tasks@ == found@,
            sweep.claim.deep_view() == ids_of(found@),
    {
        plan_sweep(found)
    }
}

/// The user identifiers that the members of an entrant set denote, or `None`
/// where a member denotes none.
pub open spec fn entrants_of(members: Seq<Seq<char>>) -> Option<Seq<u64>> {
    if forall|i: int| 0 <= i < members.len() ==> parse_id_spec(#[trigger] members[i]) is Some {
        Some(Seq::new(members.len(), |i: int| parse_id_spec(members[i])->0))
    } else {
        None
    }
}

/// The winners named one after the other, separated by a comma and a space.
pub open spec fn mention_list(winners: Seq<u64>) -> Seq<char>
    decreases winners.len(),
{
    if winners.len() == 0 {
        Seq::empty()
    } else if winners.len() == 1 {
        user_mention(winners[0])
    } else {
        mention_list(winners.drop_last()) + ", "@ + user_mention(winners.last())
    }
}

/// Who won, as the announcement says it.
pub open spec fn winner_text(winners: Seq<u64>) -> Seq<char> {
    if winners.len() == 0 {
        "Nobody"@
    } else {
        mention_list(winners)
    }
}

/// The line about the winners that closes the giveaway's message.
pub open spec fn outcome_text(winners: Seq<u64>) -> Seq<char> {
    if winners.len() == 0 {
        "No one won"@
    } else {
        "Winners: "@ + mention_list(winners)
    }
}

/// The text of the ended giveaway's message.
pub open spec fn ended_description(content: Seq<char>, winners: Seq<u64>) -> Seq<char> {
    content + "\n\n"@ + outcome_text(winners)
}

/// The text of the announcement that follows the edit.
pub open spec fn announcement_text(winners: Seq<u64>, prize: Seq<char>) -> Seq<char> {
    winner_text(winners) + " has won the giveaway for `"@ + prize + "`"@
}

/// A sample of a pool without repeated entrants holds no entrant twice, and
/// holds entrants only.
pub proof fn lemma_sample_of_distinct_pool<T>(picked: Seq<T>, pool: Seq<T>, amount: nat)
    requires
        is_sample_of(picked, pool, amount),
        forall|i: int, j: int| 0 <= i < j < pool.len() ==> pool[i] != pool[j],
    ensures
        forall|a: int, b: int| 0 <= a < b < picked.len() ==> picked[a] != picked[b],
        forall|a: int| 0 <= a < picked.len() ==> pool.contains(#[trigger] picked[a]),
{
    let indices = choose|indices: Seq<int>| drawn_at(picked, pool, indices);
    assert forall|a: int, b: int| 0 <= a < b < picked.len() implies picked[a] != picked[b] by {
        let i = indices[a];
        let j = indices[b];
        if i < j {
            assert(pool[i] != pool[j]);
        } else {
            assert(pool[j] != pool[i]);
        }
    }
    assert forall|a: int| 0 <= a < picked.len() implies pool.contains(#[trigger] picked[a]) by {
        assert(pool[indices[a]] == picked[a]);
    }
}

/// Reads the entrants from the members of the giveaway's set.
pub fn parse_entrants(members: &Vec<String>) -> (entrants: Option<Vec<u64>>)
    ensures
        match entrants {
            Some(ids) => entrants_of(members.deep_view()) == Some(ids@),
            None => entrants_of(members.deep_view()) is None,
        },
{
    let mut ids: Vec<u64> = Vec::new();
    let mut i: usize = 0;
    while i < members.len()
        invariant
            i <= members@.len(),
            ids@.len() == i,
            forall|k: int|
                0 <= k < i ==> parse_id_spec(#[trigger] members.deep_view()[k]) == Some(ids@[k]),
        decreases members@.len() - i,
    {
        match parse_id(members[i].as_str()) {
            Some(id) => {
                assert(members.deep_view()[i as int] == members@[i as int]@);
                ids.push(id);
            },
            None => {
                assert(parse_id_spec(members.deep_view()[i as int]) is None);
                return None;
            },
        }
        i += 1;
    }
    assert(ids@ =~= entrants_of(members.deep_view())->0);
    Some(ids)
}

/// Draws the winners: `count` entrants picked at random without
/// replacement, or all entrants, in their order, where there are no more
/// than `count`.
pub fn select_winners(entrants: Vec<u64>, count: usize) -> (winners: Vec<u64>)
    ensures
        is_sample_of(winners@, entrants@, count as nat),
        entrants@.len() <= count ==> winners@ == entrants@,
{
    if entrants.len() > count {
        choose_multiple(&entrants, count)
    } else {
        proof {
            let indices = Seq::new(entrants@.len(), |i: int| i);
            assert(drawn_at(entrants@, entrants@, indices));
        }
        entrants
    }
}

/// Writes [`mention_list`].
pub fn list_mentions(winners: &Vec<u64>) -> (list: String)
    ensures
        list@ == mention_list(winners@),
{
    let mut out = String::new();
    let mut i: usize = 0;
    assert(winners@.take(0) =~= Seq::empty());
    while i < winners.len()
        invariant
            i <= winners@.len(),
            out@ == mention_list(winners@.take(i as int)),
        decreases winners@.len() - i,
    {
        let ghost before = winners@.take(i as int);
        let ghost after = winners@.take(i as int + 1);
        assert(after.drop_last() =~= before);
        assert(after.last() == winners@[i as int]);
        if i > 0 {
            out.append(", ");
        }
        push_user_mention(&mut out, winners[i]);
        proof {
            if i == 0 {
                assert(out@ =~= user_mention(winners@[0]));
                assert(after[0] == winners@[0]);
            } else {
                assert(out@ =~= mention_list(before) + ", "@ + user_mention(after.last()));
            }
        }
        i += 1;
    }
    assert(winners@.take(i as int) =~= winners@);
    out
}

/// What is said when a giveaway has ended.
#[derive(Debug, PartialEq, Eq)]
pub struct Conclusion {
    /// The winners, who alone may be notified by the announcement.
    pub winners: Vec<u64>,
    /// The new text of the giveaway's message.
    pub description: String,
    /// The announcement that follows.
    pub announcement: String,
}

/// Words the end of `giveaway` for the drawn `winners`. Without winners the
/// texts say that nobody won and name no user.
pub fn conclude(giveaway: &Giveaway, winners: Vec<u64>) -> (conclusion: Conclusion)
    ensures
        conclusion.winners@ == winners@,
        conclusion.description@ == ended_description(
            content_text(giveaway.title@, epoch_seconds(giveaway.end as int)),
            winners@,
        ),
        conclusion.announcement@ == announcement_text(winners@, giveaway.prize@),
{
    let mut description = giveaway.get_content();
    description.append("\n\n");
    let mut announcement = String::new();
    if winners.len() > 0 {
        let list = list_mentions(&winners);
        description.append("Winners: ");
        description.append(list.as_str());
        announcement.append(list.as_str());
    } else {
        description.append("No one won");
        announcement.append("Nobody");
    }
    announcement.append(" has won the giveaway for `");
    announcement.append(giveaway.prize.as_str());
    announcement.append("`");
    assert(description@ =~= ended_description(
        content_text(giveaway.title@, epoch_seconds(giveaway.end as int)),
        winners@,
    ));
    assert(announcement@ =~= announcement_text(winners@, giveaway.prize@));
    Conclusion { winners, description, announcement }
}

/// Where the completion of one giveaway stands.
#[derive(Debug, PartialEq, Eq)]
pub enum GiveawayState {
    /// Waiting for the deadline.
    Sleeping,
    /// The entrants have been asked for.
    Collecting,
    /// The winners are drawn; the entrant set is being given its expiry.
    Expiring { winners: Vec<u64> },
    /// The giveaway's message is being edited.
    Editing { winners: Vec<u64> },
    /// The giveaway is completed.
    Done,
    /// The task gave up.
    Aborted { fault: Fault },
}

/// The request to edit the message of the ended giveaway, or the fault that
/// a record without usable identifiers is.
pub open spec fn edit_request(giveaway: Giveaway, winners: Seq<u64>) -> Seq<EffectView> {
    if giveaway.well_formed() {
        seq![
            EffectView::EditMessage {
                channel: parse_id_spec(giveaway.channel_id@)->0,
                message: parse_id_spec(giveaway.message_id@)->0,
                title: "Giveaway Ended"@,
                description: ended_description(
                    content_text(giveaway.title@, epoch_seconds(giveaway.end as int)),
                    winners,
                ),
            },
        ]
    } else {
        seq![EffectView::Abort { fault: Fault::MalformedRecord }]
    }
}

/// The state that goes with [`edit_request`].
pub open spec fn edit_requested(giveaway: Giveaway, winners: Seq<u64>, post: GiveawayState) -> bool {
    if giveaway.well_formed() {
        post matches GiveawayState::Editing { winners: kept } && kept@ == winners
    } else {
        post == (GiveawayState::Aborted { fault: Fault::MalformedRecord })
    }
}

/// The announcement of the winners. Only they may be notified by it.
pub open spec fn announcement(giveaway: Giveaway, winners: Seq<u64>) -> EffectView {
    EffectView::Announce {
        channel: parse_id_spec(giveaway.channel_id@)->0,
        content: announcement_text(winners, giveaway.prize@),
        jump_url: jump_url(
            parse_id_spec(giveaway.guild_id@)->0,
            parse_id_spec(giveaway.channel_id@)->0,
            parse_id_spec(giveaway.message_id@)->0,
        ),
        mentions: winners,
    }
}

/// What [`begin_completion`] answers.
pub open spec fn completion_begins(
    giveaway: Giveaway,
    now_seconds: int,
    state: GiveawayState,
    effects: Seq<EffectView>,
) -> bool {
    &&& state is Sleeping
    &&& effects == seq![
        EffectView::Sleep {
            seconds: remaining_seconds(epoch_seconds(giveaway.end as int), now_seconds) as u64,
        },
    ]
}

/// The transition relation of a giveaway's completion: from `pre`, on
/// `reply`, the task moves to `post` and asks for `effects`, in that order.
pub open spec fn completion_steps(
    giveaway: Giveaway,
    pre: GiveawayState,
    reply: Reply,
    post: GiveawayState,
    effects: Seq<EffectView>,
) -> bool {
    match (pre, reply) {
        (GiveawayState::Sleeping, Reply::Woken) => {
            &&& post is Collecting
            &&& effects == seq![EffectView::FetchMembers { key: giveaway.store_key@ }]
        },
        (GiveawayState::Collecting, Reply::Members(members)) => {
            match entrants_of(listed_members(members)) {
                None => {
                    &&& post == (GiveawayState::Aborted { fault: Fault::MalformedMember })
                    &&& effects == member_warnings(members) + seq![
                        EffectView::Abort { fault: Fault::MalformedMember },
                    ]
                },
                Some(entrants) => {
                    if entrants.len() > 0 && giveaway.winners > 0 {
                        &&& post matches GiveawayState::Expiring { winners }
                        &&& is_sample_of(winners@, entrants, giveaway.winners as nat)
                        &&& entrants.len() <= giveaway.winners ==> winners@ == entrants
                        &&& effects == member_warnings(members) + seq![
                            EffectView::Expire {
                                key: giveaway.store_key@,
                                seconds: ENTRANT_EXPIRY_SECONDS,
                            },
                        ]
                    } else {
                        &&& edit_requested(giveaway, Seq::empty(), post)
                        &&& effects == member_warnings(members) + edit_request(
                            giveaway,
                            Seq::empty(),
                        )
                    }
                },
            }
        },
        (GiveawayState::Expiring { winners }, Reply::Expired(ok)) => {
            if ok {
                &&& edit_requested(giveaway, winners@, post)
                &&& effects == edit_request(giveaway, winners@)
            } else {
                &&& post == (GiveawayState::Aborted { fault: Fault::StoreCommandFailed })
                &&& effects == seq![EffectView::Abort { fault: Fault::StoreCommandFailed }]
            }
        },
        (GiveawayState::Editing { winners }, Reply::Edited(ok)) => {
            if !ok {
                &&& post is Done
                &&& effects == seq![EffectView::Log { problem: Problem::EditFailed }]
            } else if giveaway.well_formed() {
                &&& post is Done
                &&& effects == seq![announcement(giveaway, winners@)]
            } else {
                &&& post == (GiveawayState::Aborted { fault: Fault::MalformedRecord })
                &&& effects == seq![EffectView::Abort { fault: Fault::MalformedRecord }]
            }
        },
        _ => post == pre && effects == Seq::<EffectView>::empty(),
    }
}

/// A completion has one request under way at most: of the effects of a
/// step only the last may be one that is answered, and a step that ends the
/// task asks for nothing that is answered. A task that has ended stays
/// ended and silent.
pub proof fn lemma_completion_protocol(
    giveaway: Giveaway,
    pre: GiveawayState,
    reply: Reply,
    post: GiveawayState,
    effects: Seq<EffectView>,
)
    requires
        completion_steps(giveaway, pre, reply, post, effects),
    ensures
        one_request_at_a_time(effects),
        (post is Done || post is Aborted) ==> forall|k: int|
            0 <= k < effects.len() ==> !(#[trigger] effects[k]).expects_reply(),
        (pre is Done || pre is Aborted) ==> post == pre && effects.len() == 0,
        !(post is Done || post is Aborted) && post != pre ==> effects.len() > 0
            && effects.last().expects_reply(),
{
}

/// A failed edit is never tried again, and the entrant set gets its expiry
/// once at most: the edit of the giveaway's message is only asked for when
/// the entrants are in or their expiry is set, and the expiry only when the
/// entrants are in.
pub proof fn lemma_edit_is_asked_once(
    giveaway: Giveaway,
    pre: GiveawayState,
    reply: Reply,
    post: GiveawayState,
    effects: Seq<EffectView>,
)
    requires
        completion_steps(giveaway, pre, reply, post, effects),
    ensures
        forall|k: int|
            0 <= k < effects.len() && (#[trigger] effects[k]) is EditMessage ==> (pre
                is Collecting || pre is Expiring) && post is Editing,
        forall|k: int|
            0 <= k < effects.len() && (#[trigger] effects[k]) is Expire ==> pre is Collecting
                && post is Expiring,
        post is Collecting ==> pre is Sleeping || (pre is Collecting && effects.len() == 0),
        post is Expiring ==> pre is Collecting || (pre is Expiring && effects.len() == 0),
        post is Sleeping ==> pre is Sleeping && effects.len() == 0,
{
}

/// The draw of a completion task: from a pool of pairwise different
/// entrants the task draws as many winners as the giveaway asks for, or the
/// whole pool where it holds fewer; no entrant wins twice, and nobody wins
/// who did not enter.
pub proof fn lemma_winners_are_distinct_entrants(
    giveaway: Giveaway,
    members: Option<Vec<String>>,
    post: GiveawayState,
    effects: Seq<EffectView>,
)
    requires
        completion_steps(giveaway, GiveawayState::Collecting, Reply::Members(members), post, effects),
        entrants_of(listed_members(members)) is Some,
        forall|i: int, j: int|
            0 <= i < j < listed_members(members).len() ==> parse_id_spec(
                listed_members(members)[i],
            ) != parse_id_spec(listed_members(members)[j]),
        listed_members(members).len() > 0,
        giveaway.winners > 0,
    ensures
        post is Expiring,
        post->Expiring_winners@.len() == if giveaway.winners <= listed_members(members).len() {
            giveaway.winners as int
        } else {
            listed_members(members).len() as int
        },
        forall|a: int, b: int|
            0 <= a < b < post->Expiring_winners@.len() ==> post->Expiring_winners@[a]
                != post->Expiring_winners@[b],
        forall|a: int|
            0 <= a < post->Expiring_winners@.len() ==> entrants_of(
                listed_members(members),
            )->0.contains(#[trigger] post->Expiring_winners@[a]),
{
    let entrants = entrants_of(listed_members(members))->0;
    lemma_sample_of_distinct_pool(post->Expiring_winners@, entrants, giveaway.winners as nat);
}

/// A giveaway without entrants names nobody: its message says that no one
/// won, the announcement speaks of nobody, and no user may be notified. The
/// entrant set is not touched again.
pub proof fn lemma_empty_pool_names_nobody(
    giveaway: Giveaway,
    members: Option<Vec<String>>,
    edited: bool,
    editing: GiveawayState,
    first: Seq<EffectView>,
    done: GiveawayState,
    second: Seq<EffectView>,
)
    requires
        giveaway.well_formed(),
        listed_members(members).len() == 0,
        completion_steps(
            giveaway,
            GiveawayState::Collecting,
            Reply::Members(members),
            editing,
            first,
        ),
        completion_steps(giveaway, editing, Reply::Edited(edited), done, second),
    ensures
        first.last() == (EffectView::EditMessage {
            channel: parse_id_spec(giveaway.channel_id@)->0,
            message: parse_id_spec(giveaway.message_id@)->0,
            title: "Giveaway Ended"@,
            description: content_text(giveaway.title@, epoch_seconds(giveaway.end as int))
                + "\n\n"@ + "No one won"@,
        }),
        forall|k: int| 0 <= k < first.len() ==> !(#[trigger] first[k] is Expire),
        done is Done,
        edited ==> second.len() == 1 && second[0] == (EffectView::Announce {
            channel: parse_id_spec(giveaway.channel_id@)->0,
            content: "Nobody"@ + " has won the giveaway for `"@ + giveaway.prize@ + "`"@,
            jump_url: jump_url(
                parse_id_spec(giveaway.guild_id@)->0,
                parse_id_spec(giveaway.channel_id@)->0,
                parse_id_spec(giveaway.message_id@)->0,
            ),
            mentions: Seq::empty(),
        }),
        !edited ==> second == seq![EffectView::Log { problem: Problem::EditFailed }],
{
    assert(entrants_of(listed_members(members)) == Some(Seq::<u64>::empty()));
}

/// Starts the completion of a claimed giveaway: the task sleeps until the
/// deadline, however early the giveaway was claimed.
pub fn begin_completion(giveaway: &Giveaway, now_seconds: i64) -> (next: (
    GiveawayState,
    Vec<Effect>,
))
    ensures
        completion_begins(*giveaway, now_seconds as int, next.0, next.1.deep_view()),
{
    let effects = vec![Effect::Sleep { seconds: giveaway.remaining_at(now_seconds) }];
    assert(effects.deep_view() =~= seq![
        EffectView::Sleep {
            seconds: remaining_seconds(epoch_seconds(giveaway.end as int), now_seconds as int)
                as u64,
        },
    ]);
    (GiveawayState::Sleeping, effects)
}

fn request_edit(giveaway: &Giveaway, winners: Vec<u64>, effects: &mut Vec<Effect>) -> (post:
    GiveawayState)
    ensures
        edit_requested(*giveaway, winners@, post),
        final(effects).deep_view() == old(effects).deep_view() + edit_request(*giveaway, winners@),
{
    if giveaway.is_well_formed() {
        let ghost drawn = winners@;
        let channel = giveaway.get_channel_id();
        let message = giveaway.get_message_id();
        let conclusion = conclude(giveaway, winners);
        effects.push(
            Effect::EditMessage {
                channel,
                message,
                title: String::from_str("Giveaway Ended"),
                description: conclusion.description,
            },
        );
        assert(final(effects).deep_view() =~= old(effects).deep_view() + edit_request(
            *giveaway,
            drawn,
        ));
        GiveawayState::Editing { winners: conclusion.winners }
    } else {
        effects.push(Effect::Abort { fault: Fault::MalformedRecord });
        assert(final(effects).deep_view() =~= old(effects).deep_view() + edit_request(
            *giveaway,
            winners@,
        ));
        GiveawayState::Aborted { fault: Fault::MalformedRecord }
    }
}

/// Advances the completion of `giveaway` by one reply.
pub fn step_completion(giveaway: &Giveaway, state: GiveawayState, reply: Reply) -> (next: (
    GiveawayState,
    Vec<Effect>,
))
    ensures
        completion_steps(*giveaway, state, reply, next.0, next.1.deep_view()),
{
    let mut effects: Vec<Effect> = Vec::new();
    assert(effects.deep_view() =~= Seq::<EffectView>::empty());
    match (state, reply) {
        (GiveawayState::Sleeping, Reply::Woken) => {
            effects.push(Effect::FetchMembers { key: giveaway.get_store_key() });
            assert(effects.deep_view() =~= seq![
                EffectView::FetchMembers { key: giveaway.store_key@ },
            ]);
            (GiveawayState::Collecting, effects)
        },
        (GiveawayState::Collecting, Reply::Members(members)) => {
            let listed = match members {
                Some(listed) => listed,
                None => {
                    effects.push(Effect::Log { problem: Problem::MembersUnavailable });
                    Vec::new()
                },
            };
            assert(listed.deep_view() =~= listed_members(members));
            assert(effects.deep_view() =~= member_warnings(members));
            match parse_entrants(&listed) {
                None => {
                    effects.push(Effect::Abort { fault: Fault::MalformedMember });
                    assert(effects.deep_view() =~= member_warnings(members) + seq![
                        EffectView::Abort { fault: Fault::MalformedMember },
                    ]);
                    (GiveawayState::Aborted { fault: Fault::MalformedMember }, effects)
                },
                Some(entrants) => {
                    let ghost pool = entrants@;
                    let winners = select_winners(entrants, giveaway.winners);
                    if winners.len() > 0 {
                        effects.push(
                            Effect::Expire {
                                key: giveaway.get_store_key(),
                                seconds: ENTRANT_EXPIRY_SECONDS,
                            },
                        );
                        assert(effects.deep_view() =~= member_warnings(members) + seq![
                            EffectView::Expire {
                                key: giveaway.store_key@,
                                seconds: ENTRANT_EXPIRY_SECONDS,
                            },
                        ]);
                        (GiveawayState::Expiring { winners }, effects)
                    } else {
                        assert(winners@ =~= Seq::empty());
                        let post = request_edit(giveaway, winners, &mut effects);
                        (post, effects)
                    }
                },
            }
        },
        (GiveawayState::Expiring { winners }, Reply::Expired(ok)) => {
            if ok {
                let post = request_edit(giveaway, winners, &mut effects);
                assert(effects.deep_view() =~= edit_request(*giveaway, winners@));
                (post, effects)
            } else {
                effects.push(Effect::Abort { fault: Fault::StoreCommandFailed });
                assert(effects.deep_view() =~= seq![
                    EffectView::Abort { fault: Fault::StoreCommandFailed },
                ]);
                (GiveawayState::Aborted { fault: Fault::StoreCommandFailed }, effects)
            }
        },
        (GiveawayState::Editing { winners }, Reply::Edited(ok)) => {
            if ok {
                if giveaway.is_well_formed() {
                    let ghost drawn = winners@;
                    let channel = giveaway.get_channel_id();
                    let jump = make_jump_url(
                        giveaway.get_guild_id(),
                        channel,
                        giveaway.get_message_id(),
                    );
                    let conclusion = conclude(giveaway, winners);
                    effects.push(
                        Effect::Announce {
                            channel,
                            content: conclusion.announcement,
                            jump_url: jump,
                            mentions: conclusion.winners,
                        },
                    );
                    assert(effects.deep_view() =~= seq![announcement(*giveaway, drawn)]);
                    (GiveawayState::Done, effects)
                } else {
                    effects.push(Effect::Abort { fault: Fault::MalformedRecord });
                    assert(effects.deep_view() =~= seq![
                        EffectView::Abort { fault: Fault::MalformedRecord },
                    ]);
                    (GiveawayState::Aborted { fault: Fault::MalformedRecord }, effects)
                }
            } else {
                effects.push(Effect::Log { problem: Problem::EditFailed });
                assert(effects.deep_view() =~= seq![
                    EffectView::Log { problem: Problem::EditFailed },
                ]);
                (GiveawayState::Done, effects)
            }
        },
        (state, _) => (state, effects),
    }
}

} // verus!
