//! The stored records of scheduled campaigns.

use crate::text::{decimal, parse_id, parse_id_spec, push_i64};
use crate::trusted::{
    clock_seconds, epoch_seconds, store_timestamp_seconds, CHRONO_MAX_SECONDS, CHRONO_MIN_SECONDS,
};
use vstd::prelude::*;
use vstd::string::StringExecFns;

verus! {

/// What a scheduler sweep reads of a campaign record, and the one change it
/// makes to it.
pub trait Campaign: Sized {
    /// The unique identifier of the record.
    spec fn spec_id(&self) -> Seq<char>;

    /// The deadline, in milliseconds since the Unix epoch.
    spec fn spec_end(&self) -> i64;

    /// Whether the record still awaits its completion.
    spec fn spec_active(&self) -> bool;

    /// The record once it has been claimed.
    spec fn spec_deactivated(&self) -> Self;

    /// Claiming a record clears `active` and keeps its identifier and deadline.
    proof fn lemma_deactivated(&self)
        ensures
            self.spec_deactivated().spec_id() == self.spec_id(),
            self.spec_deactivated().spec_end() == self.spec_end(),
            !self.spec_deactivated().spec_active(),
            !self.spec_active() ==> self.spec_deactivated() == *self,
    ;

    fn id(&self) -> (id: &String)
        ensures
            id@ == self.spec_id(),
    ;

    fn end_millis(&self) -> (end: i64)
        ensures
            end == self.spec_end(),
    ;

    fn is_active(&self) -> (active: bool)
        ensures
            active == self.spec_active(),
    ;

    /// Claims the record.
    fn deactivate(&mut self)
        ensures
            *final(self) == old(self).spec_deactivated(),
    ;

    /// A copy of the record, field by field.
    fn duplicate(&self) -> (copy: Self)
        ensures
            copy == *self,
    ;
}

/// The text that a campaign shows while it runs and when it ends: the title
/// in bold, a blank line, and the deadline as a timestamp tag.
pub open spec fn content_text(title: Seq<char>, end_seconds: int) -> Seq<char> {
    "**"@ + title + "**\n\n<t:"@ + decimal(end_seconds) + ">"@
}

/// The seconds left from `now_seconds` until `end_seconds`, none once the
/// deadline has passed.
pub open spec fn remaining_seconds(end_seconds: int, now_seconds: int) -> int {
    if end_seconds > now_seconds {
        end_seconds - now_seconds
    } else {
        0
    }
}

fn render_content(title: &String, end_millis: i64) -> (content: String)
    ensures
        content@ == content_text(title@, epoch_seconds(end_millis as int)),
{
    let seconds = store_timestamp_seconds(end_millis);
    let mut out = String::from_str("**");
    out.append(title.as_str());
    out.append("**\n\n<t:");
    push_i64(&mut out, seconds);
    out.append(">");
    assert(out@ =~= content_text(title@, epoch_seconds(end_millis as int)));
    out
}

fn seconds_until(end_millis: i64, now_seconds: i64) -> (left: u64)
    ensures
        left == remaining_seconds(epoch_seconds(end_millis as int), now_seconds as int),
{
    let end_seconds = store_timestamp_seconds(end_millis);
    if end_seconds > now_seconds {
        (end_seconds as i128 - now_seconds as i128) as u64
    } else {
        0
    }
}

/// A timed announcement.
#[derive(Debug, Clone, PartialEq, Eq)]
pub struct Timer {
    pub _id: String,
    pub host_id: String,
    pub guild_id: String,
    pub message_id: String,
    pub channel_id: String,
    /// When the timer was started, in milliseconds since the Unix epoch.
    pub start: i64,
    /// When the timer ends, in milliseconds since the Unix epoch.
    pub end: i64,
    pub active: bool,
    pub title: String,
    pub icon_url: String,
    /// The template of the message that is posted when the timer ends.
    pub end_message: String,
    /// The ephemeral key under which the subscribers of the timer are kept.
    pub store_key: String,
}

impl Timer {
    /// The four identifiers of the record name a host, a guild, a message
    /// and a channel. A record that fails this cannot be completed.
    pub open spec fn well_formed(&self) -> bool {
        &&& parse_id_spec(self.host_id@) is Some
        &&& parse_id_spec(self.guild_id@) is Some
        &&& parse_id_spec(self.message_id@) is Some
        &&& parse_id_spec(self.channel_id@) is Some
    }

    /// Whether the record is [`Timer::well_formed`].
    pub fn is_well_formed(&self) -> (ok: bool)
        ensures
            ok == self.well_formed(),
    {
        parse_id(self.host_id.as_str()).is_some() && parse_id(self.guild_id.as_str()).is_some()
            && parse_id(self.message_id.as_str()).is_some() && parse_id(
            self.channel_id.as_str(),
        ).is_some()
    }

    /// The user who started the timer.
    pub fn get_host_id(&self) -> (id: u64)
        requires
            parse_id_spec(self.host_id@) is Some,
        ensures
            Some(id) == parse_id_spec(self.host_id@),
    {
        parse_id(self.host_id.as_str()).unwrap()
    }

    /// The guild that owns the timer.
    pub fn get_guild_id(&self) -> (id: u64)
        requires
            parse_id_spec(self.guild_id@) is Some,
        ensures
            Some(id) == parse_id_spec(self.guild_id@),
    {
        parse_id(self.guild_id.as_str()).unwrap()
    }

    /// The channel in which the timer was posted.
    pub fn get_channel_id(&self) -> (id: u64)
        requires
            parse_id_spec(self.channel_id@) is Some,
        ensures
            Some(id) == parse_id_spec(self.channel_id@),
    {
        parse_id(self.channel_id.as_str()).unwrap()
    }

    /// The message that shows the timer.
    pub fn get_message_id(&self) -> (id: u64)
        requires
            parse_id_spec(self.message_id@) is Some,
        ensures
            Some(id) == parse_id_spec(self.message_id@),
    {
        parse_id(self.message_id.as_str()).unwrap()
    }

    /// The key of the timer's subscriber set.
    pub fn get_store_key(&self) -> (key: String)
        ensures
            key@ == self.store_key@,
    {
        self.store_key.clone()
    }

    /// The text of the timer: see [`content_text`].
    pub fn get_content(&self) -> (content: String)
        ensures
            content@ == content_text(self.title@, epoch_seconds(self.end as int)),
    {
        render_content(&self.title, self.end)
    }

    /// The seconds left until the deadline, counted from `now_seconds`.
    pub fn remaining_at(&self, now_seconds: i64) -> (left: u64)
        ensures
            left == remaining_seconds(epoch_seconds(self.end as int), now_seconds as int),
    {
        seconds_until(self.end, now_seconds)
    }

    /// The seconds left until the deadline on the system clock: what
    /// [`Timer::remaining_at`] gives for the second at which it is read.
    pub fn get_duration_remaining(&self) -> (left: u64)
        ensures
            exists|now: int|
                CHRONO_MIN_SECONDS <= now <= CHRONO_MAX_SECONDS && left
                    == #[trigger] remaining_seconds(epoch_seconds(self.end as int), now),
    {
        let now = clock_seconds();
        let left = self.remaining_at(now);
        assert(left == remaining_seconds(epoch_seconds(self.end as int), now as int));
        left
    }
}

impl Campaign for Timer {
    open spec fn spec_id(&self) -> Seq<char> {
        self._id@
    }

    open spec fn spec_end(&self) -> i64 {
        self.end
    }

    open spec fn spec_active(&self) -> bool {
        self.active
    }

    open spec fn spec_deactivated(&self) -> Self {
        Timer { active: false, ..*self }
    }

    proof fn lemma_deactivated(&self) {
    }

    fn id(&self) -> (id: &String) {
        &self._id
    }

    fn end_millis(&self) -> (end: i64) {
        self.end
    }

    fn is_active(&self) -> (active: bool) {
        self.active
    }

    fn deactivate(&mut self) {
        self.active = false;
    }

    fn duplicate(&self) -> (copy: Self) {
        Timer {
            _id: self._id.clone(),
            host_id: self.host_id.clone(),
            guild_id: self.guild_id.clone(),
            message_id: self.message_id.clone(),
            channel_id: self.channel_id.clone(),
            start: self.start,
            end: self.end,
            active: self.active,
            title: self.title.clone(),
            icon_url: self.icon_url.clone(),
            end_message: self.end_message.clone(),
            store_key: self.store_key.clone(),
        }
    }
}

/// A giveaway: a campaign that ends by drawing winners among its entrants.
#[derive(Debug, Clone, PartialEq, Eq)]
pub struct Giveaway {
    pub _id: String,
    pub guild_id: String,
    pub message_id: String,
    pub channel_id: String,
    /// When the giveaway was started, in milliseconds since the Unix epoch.
    pub start: i64,
    /// When the giveaway ends, in milliseconds since the Unix epoch.
    pub end: i64,
    pub active: bool,
    pub title: String,
    pub prize: String,
    /// How many winners are drawn at most.
    pub winners: usize,
    /// The ephemeral key under which the entrants of the giveaway are kept.
    pub store_key: String,
}

impl Giveaway {
    /// The three identifiers of the record name a guild, a message and a
    /// channel. A record that fails this cannot be completed.
    pub open spec fn well_formed(&self) -> bool {
        &&& parse_id_spec(self.guild_id@) is Some
        &&& parse_id_spec(self.message_id@) is Some
        &&& parse_id_spec(self.channel_id@) is Some
    }

    /// Whether the record is [`Giveaway::well_formed`].
    pub fn is_well_formed(&self) -> (ok: bool)
        ensures
            ok == self.well_formed(),
    {
        parse_id(self.guild_id.as_str()).is_some() && parse_id(self.message_id.as_str()).is_some()
            && parse_id(self.channel_id.as_str()).is_some()
    }

    /// The guild that owns the giveaway.
    pub fn get_guild_id(&self) -> (id: u64)
        requires
            parse_id_spec(self.guild_id@) is Some,
        ensures
            Some(id) == parse_id_spec(self.guild_id@),
    {
        parse_id(self.guild_id.as_str()).unwrap()
    }

    /// The channel in which the giveaway was posted.
    pub fn get_channel_id(&self) -> (id: u64)
        requires
            parse_id_spec(self.channel_id@) is Some,
        ensures
            Some(id) == parse_id_spec(self.channel_id@),
    {
        parse_id(self.channel_id.as_str()).unwrap()
    }

    /// The message that shows the giveaway.
    pub fn get_message_id(&self) -> (id: u64)
        requires
            parse_id_spec(self.message_id@) is Some,
        ensures
            Some(id) == parse_id_spec(self.message_id@),
    {
        parse_id(self.message_id.as_str()).unwrap()
    }

    /// The key of the giveaway's entrant set.
    pub fn get_store_key(&self) -> (key: String)
        ensures
            key@ == self.store_key@,
    {
        self.store_key.clone()
    }

    /// The text of the giveaway: see [`content_text`].
    pub fn get_content(&self) -> (content: String)
        ensures
            content@ == content_text(self.title@, epoch_seconds(self.end as int)),
    {
        render_content(&self.title, self.end)
    }

    /// The seconds left until the deadline, counted from `now_seconds`.
    pub fn remaining_at(&self, now_seconds: i64) -> (left: u64)
        ensures
            left == remaining_seconds(epoch_seconds(self.end as int), now_seconds as int),
    {
        seconds_until(self.end, now_seconds)
    }

    /// The seconds left until the deadline on the system clock: what
    /// [`Giveaway::remaining_at`] gives for the second at which it is read.
    pub fn get_duration_remaining(&self) -> (left: u64)
        ensures
            exists|now: int|
                CHRONO_MIN_SECONDS <= now <= CHRONO_MAX_SECONDS && left
                    == #[trigger] remaining_seconds(epoch_seconds(self.end as int), now),
    {
        let now = clock_seconds();
        let left = self.remaining_at(now);
        assert(left == remaining_seconds(epoch_seconds(self.end as int), now as int));
        left
    }
}

impl Campaign for Giveaway {
    open spec fn spec_id(&self) -> Seq<char> {
        self._id@
    }

    open spec fn spec_end(&self) -> i64 {
        self.end
    }

    open spec fn spec_active(&self) -> bool {
        self.active
    }

    open spec fn spec_deactivated(&self) -> Self {
        Giveaway { active: false, ..*self }
    }

    proof fn lemma_deactivated(&self) {
    }

    fn id(&self) -> (id: &String) {
        &self._id
    }

    fn end_millis(&self) -> (end: i64) {
        self.end
    }

    fn is_active(&self) -> (active: bool) {
        self.active
    }

    fn deactivate(&mut self) {
        self.active = false;
    }

    fn duplicate(&self) -> (copy: Self) {
        Giveaway {
            _id: self._id.clone(),
            guild_id: self.guild_id.clone(),
            message_id: self.message_id.clone(),
            channel_id: self.channel_id.clone(),
            start: self.start,
            end: self.end,
            active: self.active,
            title: self.title.clone(),
            prize: self.prize.clone(),
            winners: self.winners,
            store_key: self.store_key.clone(),
        }
    }
}

} // verus!
