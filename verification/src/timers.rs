//! The timer plugin: sweeping for timers that are about to end, and ending
//! each one by announcing it and notifying its subscribers.

use crate::effects::{channel_mention, jump_url, listed_members, make_channel_mention};
use crate::effects::{make_jump_url, member_warnings, one_request_at_a_time, user_mention};
use crate::effects::{Effect, EffectView, Fault, Problem, Reply};
use crate::event::Event;
use crate::models::{content_text, remaining_seconds, Timer};
use crate::plugin::Plugin;
use crate::scheduler::{ids_of, plan_sweep, Sweep};
use crate::text::{parse_id_spec, push_u64};
use crate::trusted::epoch_seconds;
use vstd::prelude::*;
use vstd::string::StringExecFns;

verus! {

/// How many subscribers one notification message names.
pub const PING_CHUNK: usize = 86;

/// How many messages one bulk deletion takes.
pub const DELETE_BATCH: usize = 100;

/// The plugin that schedules timers.
#[derive(Clone, Copy, Debug)]
pub struct Timers {}

impl Plugin for Timers {
    open spec fn spec_name(&self) -> Seq<char> {
        "timers"@
    }

    fn name(&self) -> (name: &'static str) {
        "timers"
    }

    fn description(&self) -> (text: &'static str) {
        "Schedules timers"
    }

    open spec fn spec_description(&self) -> Seq<char> {
        "Schedules timers"@
    }
}

impl Default for Timers {
    fn default() -> Self {
        Timers {  }
    }
}

impl Timers {
    /// Timers react to no event: subscriptions are taken elsewhere.
    pub fn on_event(&self, _event: &Event) -> (effects: Vec<Effect>)
        ensures
            effects@.len() == 0,
    {
        Vec::new()
    }

    /// The periodic path: plans the sweep over the timers that the store
    /// found due. Each is completed by a task of its own that starts with
    /// [`begin_completion`]; all of them are claimed together.
    pub fn sync_db(&self, found: Vec<Timer>) -> (sweep: Sweep<Timer>)
        ensures
            sweep.tasks@ == found@,
            sweep.claim.deep_view() == ids_of(found@),
    {
        plan_sweep(found)
    }
}

/// `items` cut into consecutive chunks of `size` items; the last chunk may
/// hold fewer.
pub open spec fn chunks<T>(items: Seq<T>, size: nat) -> Seq<Seq<T>>
    decreases items.len(),
{
    if size == 0 || items.len() == 0 {
        Seq::empty()
    } else if items.len() <= size {
        seq![items]
    } else {
        seq![items.take(size as int)] + chunks(items.skip(size as int), size)
    }
}

/// The members of a subscriber set, each wrapped as a mention, with nothing
/// in between.
pub open spec fn member_mentions(members: Seq<Seq<char>>) -> Seq<char>
    decreases members.len(),
{
    if members.len() == 0 {
        Seq::empty()
    } else {
        member_mentions(members.drop_last()) + "<@"@ + members.last() + ">"@
    }
}

/// The texts of the notification messages for `members`: one per chunk of
/// [`PING_CHUNK`] members.
pub open spec fn ping_texts(members: Seq<Seq<char>>) -> Seq<Seq<char>> {
    chunks(members, PING_CHUNK as nat).map_values(|piece: Seq<Seq<char>>| member_mentions(piece))
}

/// Chunking loses nothing and repeats nothing: the chunks, one after the
/// other, are the items again; no chunk is empty and none holds more than
/// `size` items.
pub proof fn lemma_chunks_cover<T>(items: Seq<T>, size: nat)
    requires
        size > 0,
    ensures
        chunks(items, size).flatten() == items,
        forall|k: int|
            0 <= k < chunks(items, size).len() ==> 0 < (#[trigger] chunks(items, size)[k]).len()
                <= size,
        items.len() > 0 ==> chunks(items, size).len() > 0,
    decreases items.len(),
{
    let cut = chunks(items, size);
    if items.len() == 0 {
        assert(cut.flatten() =~= items);
    } else if items.len() <= size {
        assert(cut.drop_first() =~= Seq::<Seq<T>>::empty());
        assert(cut.flatten() =~= cut.first() + cut.drop_first().flatten());
        assert(cut.flatten() =~= items);
    } else {
        let rest = chunks(items.skip(size as int), size);
        lemma_chunks_cover(items.skip(size as int), size);
        assert(cut.drop_first() =~= rest);
        assert(cut.flatten() =~= cut.first() + cut.drop_first().flatten());
        assert(cut.flatten() =~= items);
        assert forall|k: int| 0 <= k < cut.len() implies 0 < (#[trigger] cut[k]).len() <= size by {
            if k > 0 {
                assert(cut[k] == rest[k - 1]);
            }
        }
    }
}

/// Mentioning one list of members after another is mentioning both.
pub proof fn lemma_member_mentions_concat(first: Seq<Seq<char>>, second: Seq<Seq<char>>)
    ensures
        member_mentions(first + second) == member_mentions(first) + member_mentions(second),
    decreases second.len(),
{
    if second.len() == 0 {
        assert(first + second =~= first);
        assert(member_mentions(first) + member_mentions(second) =~= member_mentions(first));
    } else {
        lemma_member_mentions_concat(first, second.drop_last());
        assert((first + second).drop_last() =~= first + second.drop_last());
        assert((first + second).last() == second.last());
        assert(member_mentions(first + second) =~= member_mentions(first) + member_mentions(
            second,
        ));
    }
}

/// The notifications, read one after the other, mention every subscriber
/// once, in the order of the set: nobody is left out and nobody is notified
/// twice.
pub proof fn lemma_notifications_mention_everyone(members: Seq<Seq<char>>)
    ensures
        ping_texts(members).flatten() == member_mentions(members),
    decreases members.len(),
{
    let size = PING_CHUNK as nat;
    let texts = ping_texts(members);
    if members.len() == 0 {
        assert(texts =~= Seq::<Seq<char>>::empty());
        assert(texts.flatten() =~= member_mentions(members));
    } else if members.len() <= size {
        assert(texts =~= seq![member_mentions(members)]);
        assert(texts.drop_first() =~= Seq::<Seq<char>>::empty());
        assert(texts.flatten() =~= texts.first() + texts.drop_first().flatten());
        assert(texts.flatten() =~= member_mentions(members));
    } else {
        let head = members.take(size as int);
        let tail = members.skip(size as int);
        lemma_notifications_mention_everyone(tail);
        lemma_member_mentions_concat(head, tail);
        assert(head + tail =~= members);
        assert(texts =~= seq![member_mentions(head)] + ping_texts(tail));
        assert(texts.drop_first() =~= ping_texts(tail));
        assert(texts.flatten() =~= texts.first() + texts.drop_first().flatten());
    }
}

/// Writes the notification messages for `members`.
pub fn ping_messages(members: &Vec<String>) -> (texts: Vec<String>)
    ensures
        texts.deep_view() == ping_texts(members.deep_view()),
{
    let n = members.len();
    let ghost all = members.deep_view();
    let ghost size = PING_CHUNK as nat;
    let ghost mut cut: Seq<Seq<Seq<char>>> = Seq::empty();
    let mut texts: Vec<String> = Vec::new();
    let mut start: usize = 0;
    assert(all.skip(0) =~= all);
    while start < n
        invariant
            n == members@.len(),
            all == members.deep_view(),
            size == PING_CHUNK,
            start <= n,
            cut + chunks(all.skip(start as int), size) == chunks(all, size),
            texts@.len() == cut.len(),
            forall|k: int|
                0 <= k < texts@.len() ==> (#[trigger] texts@[k])@ == member_mentions(cut[k]),
        decreases n - start,
    {
        let end: usize = if n - start > PING_CHUNK {
            start + PING_CHUNK
        } else {
            n
        };
        let ghost left = all.skip(start as int);
        let ghost piece = all.subrange(start as int, end as int);
        proof {
            if n - start > PING_CHUNK {
                assert(left.take(size as int) =~= piece);
                assert(left.skip(size as int) =~= all.skip(end as int));
                assert(chunks(left, size) == seq![piece] + chunks(all.skip(end as int), size));
            } else {
                assert(left =~= piece);
                assert(all.skip(end as int) =~= Seq::empty());
                assert(chunks(left, size) =~= seq![piece] + chunks(all.skip(end as int), size));
            }
            assert(cut.push(piece) + chunks(all.skip(end as int), size) =~= cut + (seq![piece]
                + chunks(all.skip(end as int), size)));
        }
        let mut text = String::new();
        let mut i: usize = start;
        assert(piece.take(0) =~= Seq::empty());
        while i < end
            invariant
                start <= i <= end <= n,
                n == members@.len(),
                all == members.deep_view(),
                piece == all.subrange(start as int, end as int),
                text@ == member_mentions(piece.take(i - start)),
            decreases end - i,
        {
            assert(piece.take(i - start + 1).drop_last() =~= piece.take(i - start));
            assert(piece.take(i - start + 1).last() == members@[i as int]@);
            text.append("<@");
            text.append(members[i].as_str());
            text.append(">");
            assert(text@ =~= member_mentions(piece.take(i - start)) + "<@"@ + members@[i as int]@
                + ">"@);
            i += 1;
        }
        assert(piece.take(end - start) =~= piece);
        texts.push(text);
        proof {
            cut = cut.push(piece);
        }
        start = end;
    }
    assert(all.skip(n as int) =~= Seq::empty());
    assert(cut =~= chunks(all, size));
    assert(texts.deep_view() =~= ping_texts(all));
    texts
}

/// Cuts the posted messages into batches of [`DELETE_BATCH`] for deletion.
pub fn delete_batches(messages: &Vec<u64>) -> (batches: Vec<Vec<u64>>)
    ensures
        batches.deep_view() == chunks(messages@, DELETE_BATCH as nat),
{
    let n = messages.len();
    let ghost all = messages@;
    let ghost size = DELETE_BATCH as nat;
    let mut batches: Vec<Vec<u64>> = Vec::new();
    let mut start: usize = 0;
    assert(all.skip(0) =~= all);
    assert(batches.deep_view() =~= Seq::<Seq<u64>>::empty());
    while start < n
        invariant
            n == messages@.len(),
            all == messages@,
            size == DELETE_BATCH,
            start <= n,
            batches.deep_view() + chunks(all.skip(start as int), size) == chunks(all, size),
        decreases n - start,
    {
        let end: usize = if n - start > DELETE_BATCH {
            start + DELETE_BATCH
        } else {
            n
        };
        let ghost left = all.skip(start as int);
        let ghost piece = all.subrange(start as int, end as int);
        let ghost before = batches.deep_view();
        proof {
            if n - start > DELETE_BATCH {
                assert(left.take(size as int) =~= piece);
                assert(left.skip(size as int) =~= all.skip(end as int));
                assert(chunks(left, size) == seq![piece] + chunks(all.skip(end as int), size));
            } else {
                assert(left =~= piece);
                assert(all.skip(end as int) =~= Seq::empty());
                assert(chunks(left, size) =~= seq![piece] + chunks(all.skip(end as int), size));
            }
            assert(before.push(piece) + chunks(all.skip(end as int), size) =~= before + (
                seq![piece] + chunks(all.skip(end as int), size)));
        }
        let mut batch: Vec<u64> = Vec::new();
        let mut i: usize = start;
        while i < end
            invariant
                start <= i <= end <= n,
                n == messages@.len(),
                batch@ == messages@.subrange(start as int, i as int),
            decreases end - i,
        {
            batch.push(messages[i]);
            assert(batch@ =~= messages@.subrange(start as int, i + 1));
            i += 1;
        }
        assert(batch.deep_view() =~= piece);
        batches.push(batch);
        assert(batches.deep_view() =~= before.push(piece));
        start = end;
    }
    assert(all.skip(n as int) =~= Seq::empty());
    assert(batches.deep_view() =~= chunks(all, size));
    batches
}

/// Where the completion of one timer stands.
#[derive(Debug, PartialEq, Eq)]
pub enum TimerState {
    /// Waiting for the deadline.
    Sleeping,
    /// The timer's message is being edited.
    Editing,
    /// The end message is being rendered.
    Rendering,
    /// The subscribers have been asked for.
    Collecting,
    /// The notification `texts[next]` is being posted in `channel`; `posted`
    /// holds the messages that were posted before it.
    Pinging { channel: u64, texts: Vec<String>, next: usize, posted: Vec<u64> },
    /// The batch `batches[next]` of notifications is being deleted.
    Deleting { channel: u64, batches: Vec<Vec<u64>>, next: usize },
    /// The subscriber set is being deleted.
    Clearing,
    /// The timer is completed.
    Done,
    /// The task gave up.
    Aborted { fault: Fault },
}

/// The channel of a well-formed timer.
pub open spec fn channel_of(timer: Timer) -> u64 {
    parse_id_spec(timer.channel_id@)->0
}

/// The address of the message of a well-formed timer.
pub open spec fn link_of(timer: Timer) -> Seq<char> {
    jump_url(
        parse_id_spec(timer.guild_id@)->0,
        parse_id_spec(timer.channel_id@)->0,
        parse_id_spec(timer.message_id@)->0,
    )
}

/// The request to render the end message of a well-formed timer: the
/// template, and the variables `title`, `host`, `channel` and `link`.
pub open spec fn render_request(timer: Timer) -> EffectView {
    EffectView::Render {
        template: timer.end_message@,
        title: timer.title@,
        host: user_mention(parse_id_spec(timer.host_id@)->0),
        channel: channel_mention(channel_of(timer)),
        link: "<"@ + link_of(timer) + ">"@,
    }
}

/// What is asked for once the notifications are through: the deletion of
/// what was posted, then of the subscriber set.
pub open spec fn cleanup_effects(timer: Timer, channel: u64, posted: Seq<u64>) -> Seq<EffectView> {
    if posted.len() == 0 {
        seq![EffectView::DeleteKey { key: timer.store_key@ }]
    } else if posted.len() == 1 {
        seq![
            EffectView::DeleteMessage { channel, message: posted[0] },
            EffectView::DeleteKey { key: timer.store_key@ },
        ]
    } else {
        seq![
            EffectView::DeleteMessages { channel, messages: chunks(posted, DELETE_BATCH as nat)[0] },
        ]
    }
}

/// The state that goes with [`cleanup_effects`].
pub open spec fn cleanup_state(channel: u64, posted: Seq<u64>, post: TimerState) -> bool {
    if posted.len() <= 1 {
        post is Clearing
    } else {
        &&& post matches TimerState::Deleting { channel: kept, batches, next }
        &&& kept == channel
        &&& batches.deep_view() == chunks(posted, DELETE_BATCH as nat)
        &&& next == 0
    }
}

/// Nothing that was posted is left out of the deletion: the batches of a
/// clean-up, one after the other, are the posted messages, and none is
/// empty or larger than a deletion takes.
pub proof fn lemma_cleanup_covers_posted(channel: u64, posted: Seq<u64>, post: TimerState)
    requires
        cleanup_state(channel, posted, post),
        posted.len() > 1,
    ensures
        post is Deleting,
        post->batches.deep_view().flatten() == posted,
        forall|k: int|
            0 <= k < post->batches@.len() ==> 0 < (#[trigger] post->batches@[k])@.len()
                <= DELETE_BATCH,
{
    lemma_chunks_cover(posted, DELETE_BATCH as nat);
    let batches = post->batches;
    assert forall|k: int| 0 <= k < batches@.len() implies 0 < (#[trigger] batches@[k])@.len()
        <= DELETE_BATCH by {
        assert(batches.deep_view()[k] == batches@[k].deep_view());
        assert(batches@[k].deep_view() =~= batches@[k]@);
    }
}

/// What [`begin_completion`] answers.
pub open spec fn completion_begins(
    timer: Timer,
    now_seconds: int,
    state: TimerState,
    effects: Seq<EffectView>,
) -> bool {
    &&& state is Sleeping
    &&& effects == seq![
        EffectView::Sleep {
            seconds: remaining_seconds(epoch_seconds(timer.end as int), now_seconds) as u64,
        },
    ]
}

/// The transition relation of a timer's completion: from `pre`, on `reply`,
/// the task moves to `post` and asks for `effects`, in that order.
pub open spec fn completion_steps(
    timer: Timer,
    pre: TimerState,
    reply: Reply,
    post: TimerState,
    effects: Seq<EffectView>,
) -> bool {
    let malformed = post == (TimerState::Aborted { fault: Fault::MalformedRecord });
    let abort = seq![EffectView::Abort { fault: Fault::MalformedRecord }];
    match (pre, reply) {
        (TimerState::Sleeping, Reply::Woken) => {
            if timer.well_formed() {
                &&& post is Editing
                &&& effects == seq![
                    EffectView::EditMessage {
                        channel: channel_of(timer),
                        message: parse_id_spec(timer.message_id@)->0,
                        title: "Timer Ended"@,
                        description: content_text(timer.title@, epoch_seconds(timer.end as int)),
                    },
                ]
            } else {
                malformed && effects == abort
            }
        },
        (TimerState::Editing, Reply::Edited(ok)) => {
            if !ok {
                &&& post is Collecting
                &&& effects == seq![
                    EffectView::Log { problem: Problem::EditFailed },
                    EffectView::FetchMembers { key: timer.store_key@ },
                ]
            } else if timer.well_formed() {
                &&& post is Rendering
                &&& effects == seq![render_request(timer)]
            } else {
                malformed && effects == abort
            }
        },
        (TimerState::Rendering, Reply::Rendered(rendered)) => {
            match rendered {
                None => {
                    &&& post == (TimerState::Aborted { fault: Fault::RenderFailed })
                    &&& effects == seq![EffectView::Abort { fault: Fault::RenderFailed }]
                },
                Some(body) => {
                    if timer.well_formed() {
                        &&& post is Collecting
                        &&& effects == seq![
                            EffectView::Announce {
                                channel: channel_of(timer),
                                content: body@,
                                jump_url: link_of(timer),
                                mentions: Seq::empty(),
                            },
                            EffectView::FetchMembers { key: timer.store_key@ },
                        ]
                    } else {
                        malformed && effects == abort
                    }
                },
            }
        },
        (TimerState::Collecting, Reply::Members(members)) => {
            let listed = listed_members(members);
            if listed.len() == 0 {
                &&& post is Done
                &&& effects == member_warnings(members)
            } else if timer.well_formed() {
                &&& post matches TimerState::Pinging { channel, texts, next, posted }
                &&& channel == channel_of(timer)
                &&& texts.deep_view() == ping_texts(listed)
                &&& next == 0
                &&& posted@ == Seq::<u64>::empty()
                &&& effects == member_warnings(members) + seq![
                    EffectView::Post { channel: channel_of(timer), content: ping_texts(listed)[0] },
                ]
            } else {
                malformed && effects == member_warnings(members) + abort
            }
        },
        (TimerState::Pinging { channel, texts, next, posted }, Reply::Posted(answer)) => {
            match answer {
                Some(message) => {
                    if next + 1 < texts@.len() {
                        &&& post matches TimerState::Pinging {
                            channel: post_channel,
                            texts: post_texts,
                            next: post_next,
                            posted: post_posted,
                        }
                        &&& post_channel == channel
                        &&& post_texts.deep_view() == texts.deep_view()
                        &&& post_next == next + 1
                        &&& post_posted@ == posted@.push(message)
                        &&& effects == seq![
                            EffectView::Post { channel, content: texts@[next + 1]@ },
                        ]
                    } else {
                        &&& cleanup_state(channel, posted@.push(message), post)
                        &&& effects == cleanup_effects(timer, channel, posted@.push(message))
                    }
                },
                None => {
                    &&& cleanup_state(channel, posted@, post)
                    &&& effects == seq![EffectView::Log { problem: Problem::PostFailed }]
                        + cleanup_effects(timer, channel, posted@)
                },
            }
        },
        (TimerState::Deleting { channel, batches, next }, Reply::Deleted(ok)) => {
            if !ok {
                &&& post is Clearing
                &&& effects == seq![
                    EffectView::Log { problem: Problem::DeleteFailed },
                    EffectView::DeleteKey { key: timer.store_key@ },
                ]
            } else if next + 1 < batches@.len() {
                &&& post matches TimerState::Deleting {
                    channel: post_channel,
                    batches: post_batches,
                    next: post_next,
                }
                &&& post_channel == channel
                &&& post_batches.deep_view() == batches.deep_view()
                &&& post_next == next + 1
                &&& effects == seq![
                    EffectView::DeleteMessages { channel, messages: batches@[next + 1]@ },
                ]
            } else {
                &&& post is Clearing
                &&& effects == seq![EffectView::DeleteKey { key: timer.store_key@ }]
            }
        },
        (TimerState::Clearing, Reply::Cleared(ok)) => {
            if ok {
                &&& post is Done
                &&& effects == Seq::<EffectView>::empty()
            } else {
                &&& post == (TimerState::Aborted { fault: Fault::StoreCommandFailed })
                &&& effects == seq![EffectView::Abort { fault: Fault::StoreCommandFailed }]
            }
        },
        _ => post == pre && effects == Seq::<EffectView>::empty(),
    }
}

/// A completion has one request under way at most: of the effects of a
/// step only the last may be one that is answered, and a step that ends the
/// task asks for nothing that is answered. A task that has ended stays
/// ended and silent.
pub proof fn lemma_completion_protocol(
    timer: Timer,
    pre: TimerState,
    reply: Reply,
    post: TimerState,
    effects: Seq<EffectView>,
)
    requires
        completion_steps(timer, pre, reply, post, effects),
    ensures
        one_request_at_a_time(effects),
        (post is Done || post is Aborted) ==> forall|k: int|
            0 <= k < effects.len() ==> !(#[trigger] effects[k]).expects_reply(),
        (pre is Done || pre is Aborted) ==> post == pre && effects.len() == 0,
{
}

/// A failed edit is never tried again, and a claimed timer is never put
/// back: only the step that follows the sleep asks for the edit of the
/// timer's message.
pub proof fn lemma_edit_is_asked_once(
    timer: Timer,
    pre: TimerState,
    reply: Reply,
    post: TimerState,
    effects: Seq<EffectView>,
)
    requires
        completion_steps(timer, pre, reply, post, effects),
    ensures
        forall|k: int|
            0 <= k < effects.len() && (#[trigger] effects[k]) is EditMessage ==> pre is Sleeping
                && post is Editing,
        post is Sleeping ==> pre is Sleeping && effects.len() == 0,
{
}

/// Starts the completion of a claimed timer: the task sleeps until the
/// deadline, however early the timer was claimed.
pub fn begin_completion(timer: &Timer, now_seconds: i64) -> (next: (TimerState, Vec<Effect>))
    ensures
        completion_begins(*timer, now_seconds as int, next.0, next.1.deep_view()),
{
    let effects = vec![Effect::Sleep { seconds: timer.remaining_at(now_seconds) }];
    assert(effects.deep_view() =~= seq![
        EffectView::Sleep {
            seconds: remaining_seconds(epoch_seconds(timer.end as int), now_seconds as int)
                as u64,
        },
    ]);
    (TimerState::Sleeping, effects)
}

fn give_up(effects: &mut Vec<Effect>, fault: Fault) -> (post: TimerState)
    ensures
        post == (TimerState::Aborted { fault }),
        final(effects).deep_view() == old(effects).deep_view() + seq![EffectView::Abort { fault }],
{
    effects.push(Effect::Abort { fault });
    assert(final(effects).deep_view() =~= old(effects).deep_view() + seq![
        EffectView::Abort { fault },
    ]);
    TimerState::Aborted { fault }
}

fn clean_up(timer: &Timer, channel: u64, posted: Vec<u64>, effects: &mut Vec<Effect>) -> (post:
    TimerState)
    ensures
        cleanup_state(channel, posted@, post),
        final(effects).deep_view() == old(effects).deep_view() + cleanup_effects(
            *timer,
            channel,
            posted@,
        ),
{
    if posted.len() == 0 {
        effects.push(Effect::DeleteKey { key: timer.get_store_key() });
        assert(final(effects).deep_view() =~= old(effects).deep_view() + cleanup_effects(
            *timer,
            channel,
            posted@,
        ));
        TimerState::Clearing
    } else if posted.len() == 1 {
        effects.push(Effect::DeleteMessage { channel, message: posted[0] });
        effects.push(Effect::DeleteKey { key: timer.get_store_key() });
        assert(final(effects).deep_view() =~= old(effects).deep_view() + cleanup_effects(
            *timer,
            channel,
            posted@,
        ));
        TimerState::Clearing
    } else {
        let batches = delete_batches(&posted);
        proof {
            lemma_chunks_cover(posted@, DELETE_BATCH as nat);
        }
        assert(batches@.len() > 0);
        assert(batches.deep_view()[0] == batches@[0].deep_view());
        assert(batches@[0].deep_view() =~= batches@[0]@);
        effects.push(Effect::DeleteMessages { channel, messages: batches[0].clone() });
        assert(final(effects).deep_view() =~= old(effects).deep_view() + cleanup_effects(
            *timer,
            channel,
            posted@,
        ));
        TimerState::Deleting { channel, batches, next: 0 }
    }
}

/// Advances the completion of `timer` by one reply.
pub fn step_completion(timer: &Timer, state: TimerState, reply: Reply) -> (next: (
    TimerState,
    Vec<Effect>,
))
    ensures
        completion_steps(*timer, state, reply, next.0, next.1.deep_view()),
{
    let mut effects: Vec<Effect> = Vec::new();
    assert(effects.deep_view() =~= Seq::<EffectView>::empty());
    match (state, reply) {
        (TimerState::Sleeping, Reply::Woken) => {
            if timer.is_well_formed() {
                effects.push(
                    Effect::EditMessage {
                        channel: timer.get_channel_id(),
                        message: timer.get_message_id(),
                        title: String::from_str("Timer Ended"),
                        description: timer.get_content(),
                    },
                );
                assert(effects.deep_view() =~= seq![
                    EffectView::EditMessage {
                        channel: channel_of(*timer),
                        message: parse_id_spec(timer.message_id@)->0,
                        title: "Timer Ended"@,
                        description: content_text(timer.title@, epoch_seconds(timer.end as int)),
                    },
                ]);
                (TimerState::Editing, effects)
            } else {
                let post = give_up(&mut effects, Fault::MalformedRecord);
                (post, effects)
            }
        },
        (TimerState::Editing, Reply::Edited(ok)) => {
            if !ok {
                effects.push(Effect::Log { problem: Problem::EditFailed });
                effects.push(Effect::FetchMembers { key: timer.get_store_key() });
                assert(effects.deep_view() =~= seq![
                    EffectView::Log { problem: Problem::EditFailed },
                    EffectView::FetchMembers { key: timer.store_key@ },
                ]);
                (TimerState::Collecting, effects)
            } else if timer.is_well_formed() {
                let mut host = String::from_str("<@");
                push_u64(&mut host, timer.get_host_id());
                host.append(">");
                assert(host@ =~= user_mention(parse_id_spec(timer.host_id@)->0));
                let channel = timer.get_channel_id();
                let mut link = String::from_str("<");
                let url = make_jump_url(timer.get_guild_id(), channel, timer.get_message_id());
                link.append(url.as_str());
                link.append(">");
                effects.push(
                    Effect::Render {
                        template: timer.end_message.clone(),
                        title: timer.title.clone(),
                        host,
                        channel: make_channel_mention(channel),
                        link,
                    },
                );
                assert(effects.deep_view() =~= seq![render_request(*timer)]);
                (TimerState::Rendering, effects)
            } else {
                let post = give_up(&mut effects, Fault::MalformedRecord);
                (post, effects)
            }
        },
        (TimerState::Rendering, Reply::Rendered(rendered)) => {
            match rendered {
                None => {
                    let post = give_up(&mut effects, Fault::RenderFailed);
                    (post, effects)
                },
                Some(body) => {
                    if timer.is_well_formed() {
                        let channel = timer.get_channel_id();
                        let jump = make_jump_url(
                            timer.get_guild_id(),
                            channel,
                            timer.get_message_id(),
                        );
                        let ghost content = body@;
                        effects.push(
                            Effect::Announce {
                                channel,
                                content: body,
                                jump_url: jump,
                                mentions: Vec::new(),
                            },
                        );
                        effects.push(Effect::FetchMembers { key: timer.get_store_key() });
                        assert(effects.deep_view() =~= seq![
                            EffectView::Announce {
                                channel: channel_of(*timer),
                                content: content,
                                jump_url: link_of(*timer),
                                mentions: Seq::empty(),
                            },
                            EffectView::FetchMembers { key: timer.store_key@ },
                        ]);
                        (TimerState::Collecting, effects)
                    } else {
                        let post = give_up(&mut effects, Fault::MalformedRecord);
                        (post, effects)
                    }
                },
            }
        },
        (TimerState::Collecting, Reply::Members(members)) => {
            let listed = match members {
                Some(listed) => listed,
                None => {
                    effects.push(Effect::Log { problem: Problem::MembersUnavailable });
                    Vec::new()
                },
            };
            assert(listed.deep_view() =~= listed_members(members));
            assert(effects.deep_view() =~= member_warnings(members));
            if listed.len() == 0 {
                (TimerState::Done, effects)
            } else if timer.is_well_formed() {
                let channel = timer.get_channel_id();
                let texts = ping_messages(&listed);
                proof {
                    lemma_chunks_cover(listed.deep_view(), PING_CHUNK as nat);
                    assert(texts.deep_view().len() == chunks(
                        listed.deep_view(),
                        PING_CHUNK as nat,
                    ).len());
                }
                assert(texts@.len() > 0);
                assert(texts.deep_view()[0] == texts@[0]@);
                effects.push(Effect::Post { channel, content: texts[0].clone() });
                assert(effects.deep_view() =~= member_warnings(members) + seq![
                    EffectView::Post {
                        channel: channel_of(*timer),
                        content: ping_texts(listed_members(members))[0],
                    },
                ]);
                (TimerState::Pinging { channel, texts, next: 0, posted: Vec::new() }, effects)
            } else {
                let post = give_up(&mut effects, Fault::MalformedRecord);
                (post, effects)
            }
        },
        (TimerState::Pinging { channel, texts, next, posted }, Reply::Posted(answer)) => {
            match answer {
                Some(message) => {
                    let mut posted = posted;
                    posted.push(message);
                    if texts.len() > 0 && next < texts.len() - 1 {
                        effects.push(Effect::Post { channel, content: texts[next + 1].clone() });
                        assert(effects.deep_view() =~= seq![
                            EffectView::Post { channel, content: texts@[next + 1]@ },
                        ]);
                        (TimerState::Pinging { channel, texts, next: next + 1, posted }, effects)
                    } else {
                        let post = clean_up(timer, channel, posted, &mut effects);
                        assert(effects.deep_view() =~= cleanup_effects(
                            *timer,
                            channel,
                            posted@,
                        ));
                        (post, effects)
                    }
                },
                None => {
                    effects.push(Effect::Log { problem: Problem::PostFailed });
                    assert(effects.deep_view() =~= seq![
                        EffectView::Log { problem: Problem::PostFailed },
                    ]);
                    let post = clean_up(timer, channel, posted, &mut effects);
                    (post, effects)
                },
            }
        },
        (TimerState::Deleting { channel, batches, next }, Reply::Deleted(ok)) => {
            if !ok {
                effects.push(Effect::Log { problem: Problem::DeleteFailed });
                effects.push(Effect::DeleteKey { key: timer.get_store_key() });
                assert(effects.deep_view() =~= seq![
                    EffectView::Log { problem: Problem::DeleteFailed },
                    EffectView::DeleteKey { key: timer.store_key@ },
                ]);
                (TimerState::Clearing, effects)
            } else if batches.len() > 0 && next < batches.len() - 1 {
                effects.push(
                    Effect::DeleteMessages { channel, messages: batches[next + 1].clone() },
                );
                assert(effects.deep_view() =~= seq![
                    EffectView::DeleteMessages { channel, messages: batches@[next + 1]@ },
                ]);
                (TimerState::Deleting { channel, batches, next: next + 1 }, effects)
            } else {
                effects.push(Effect::DeleteKey { key: timer.get_store_key() });
                assert(effects.deep_view() =~= seq![
                    EffectView::DeleteKey { key: timer.store_key@ },
                ]);
                (TimerState::Clearing, effects)
            }
        },
        (TimerState::Clearing, Reply::Cleared(ok)) => {
            if ok {
                (TimerState::Done, effects)
            } else {
                let post = give_up(&mut effects, Fault::StoreCommandFailed);
                (post, effects)
            }
        },
        (state, _) => (state, effects),
    }
}

} // verus!
