//! The date-transforming plugin: it finds the dates and times that users
//! write between braces and answers with the message in which each is a
//! timestamp that every reader sees in the reader's own time zone.

use crate::event::Event;
use crate::plugin::Plugin;
use crate::text::{decimal, push_i64, replace_first, replace_once};
use crate::trusted::{all_captures, all_captures_view, is_match, regex_all_captures, regex_matches};
use crate::trusted::{CHRONO_MAX_SECONDS, CHRONO_MIN_SECONDS};
use vstd::prelude::*;
use vstd::string::StringExecFns;

verus! {

/// The seconds of a day.
pub const DAY_SECONDS: i64 = 86_400;

/// The pattern of a braced expression: group one is what stands between
/// the braces.
pub open spec fn braces_pattern() -> Seq<char> {
    "\\{([^}]*)\\}"@
}

/// The plugin that turns written dates into timestamps.
#[derive(Debug, Clone)]
pub struct DateTransformer {
    /// The regular expression that finds the expressions to read.
    pub regex_expr: String,
}

impl Plugin for DateTransformer {
    open spec fn spec_name(&self) -> Seq<char> {
        "date_transform"@
    }

    fn name(&self) -> (name: &'static str) {
        "date_transform"
    }

    fn description(&self) -> (text: &'static str) {
        "Transforms dates to a more readable format"
    }

    open spec fn spec_description(&self) -> Seq<char> {
        "Transforms dates to a more readable format"@
    }
}

impl Default for DateTransformer {
    fn default() -> (plugin: Self)
        ensures
            plugin.regex_expr@ == braces_pattern(),
    {
        DateTransformer { regex_expr: String::from_str("\\{([^}]*)\\}") }
    }
}

/// What a written expression was read as.
#[derive(Clone, Copy, PartialEq, Eq, Structural, Debug)]
pub enum When {
    /// A calendar date, as days since the first of January 1970.
    Date { days: i32 },
    /// A time of day, as seconds since midnight.
    Time { seconds: u32 },
}

/// What an expression was read as, given what it reads as when taken for a
/// date and what it reads as when taken for a time of day: a date wins over
/// a time of day.
pub open spec fn read_as(date: Option<i32>, time: Option<u32>) -> Option<When> {
    match date {
        Some(days) => Some(When::Date { days }),
        None => match time {
            Some(seconds) => Some(When::Time { seconds }),
            None => None,
        },
    }
}

/// Computes [`read_as`].
pub fn choose_reading(date: Option<i32>, time: Option<u32>) -> (reading: Option<When>)
    ensures
        reading == read_as(date, time),
{
    match date {
        Some(days) => Some(When::Date { days }),
        None => match time {
            Some(seconds) => Some(When::Time { seconds }),
            None => None,
        },
    }
}

/// One expression found in a message.
#[derive(Debug, PartialEq, Eq)]
pub struct Find {
    /// The expression with its braces.
    pub whole: String,
    /// What stands between the braces.
    pub inner: String,
}

/// A [`Find`] as specifications see it.
pub struct FindView {
    pub whole: Seq<char>,
    pub inner: Seq<char>,
}

impl DeepView for Find {
    type V = FindView;

    open spec fn deep_view(&self) -> FindView {
        FindView { whole: self.whole@, inner: self.inner@ }
    }
}

/// A message whose expressions are being read.
#[derive(Debug, PartialEq, Eq)]
pub struct Reading {
    pub channel: u64,
    pub content: String,
    /// When the message was sent, in seconds since the Unix epoch.
    pub timestamp: i64,
    pub finds: Vec<Find>,
}

/// Why a message cannot be transformed.
#[derive(Clone, Copy, PartialEq, Eq, Structural, Debug)]
pub enum DateFault {
    /// The pattern of the plugin is no regular expression.
    BadPattern,
    /// A match lacks the text between the braces.
    MissingGroup,
    /// The message was sent at a time that no calendar holds.
    BadTimestamp,
}

/// The finds that the matches of the pattern make: of each match, group
/// zero is the whole expression and group one what stands in it.
pub open spec fn finds_of(matches: Seq<Seq<Option<Seq<char>>>>) -> Result<Seq<FindView>, DateFault> {
    if forall|i: int|
        0 <= i < matches.len() ==> (#[trigger] matches[i]).len() >= 2 && matches[i][0] is Some
            && matches[i][1] is Some {
        Ok(
            Seq::new(
                matches.len(),
                |i: int| FindView { whole: matches[i][0]->0, inner: matches[i][1]->0 },
            ),
        )
    } else {
        Err(DateFault::MissingGroup)
    }
}

/// Computes [`finds_of`].
pub fn collect_finds(matches: &Vec<Vec<Option<String>>>) -> (finds: Result<Vec<Find>, DateFault>)
    ensures
        match finds {
            Ok(found) => all_captures_view(Some(*matches)) is Some && finds_of(
                all_captures_view(Some(*matches))->0,
            ) == Ok::<Seq<FindView>, DateFault>(found.deep_view()),
            Err(fault) => finds_of(all_captures_view(Some(*matches))->0) == Err::<
                Seq<FindView>,
                DateFault,
            >(fault),
        },
{
    let ghost views = all_captures_view(Some(*matches))->0;
    let mut finds: Vec<Find> = Vec::new();
    let mut i: usize = 0;
    while i < matches.len()
        invariant
            i <= matches@.len(),
            views == all_captures_view(Some(*matches))->0,
            views.len() == matches@.len(),
            finds@.len() == i,
            forall|k: int|
                0 <= k < i ==> (#[trigger] views[k]).len() >= 2 && views[k][0] is Some
                    && views[k][1] is Some,
            forall|k: int|
                0 <= k < i ==> (#[trigger] finds@[k]).deep_view() == (FindView {
                    whole: views[k][0]->0,
                    inner: views[k][1]->0,
                }),
        decreases matches@.len() - i,
    {
        let groups = &matches[i];
        assert(views[i as int] == crate::trusted::groups_view(*groups));
        if groups.len() < 2 {
            return Err(DateFault::MissingGroup);
        }
        let whole = match &groups[0] {
            Some(text) => text.clone(),
            None => {
                return Err(DateFault::MissingGroup);
            },
        };
        let inner = match &groups[1] {
            Some(text) => text.clone(),
            None => {
                return Err(DateFault::MissingGroup);
            },
        };
        finds.push(Find { whole, inner });
        i += 1;
    }
    assert(finds.deep_view() =~= finds_of(views)->Ok_0);
    Ok(finds)
}

/// The timestamp of a read expression in a message that was sent at
/// `sent`: a date is taken at the time of day at which the message was
/// sent, a time of day on the day on which it was sent.
pub open spec fn stamp_of(when: When, sent: int) -> int {
    match when {
        When::Date { days } => days * DAY_SECONDS + sent % (DAY_SECONDS as int),
        When::Time { seconds } => (sent / (DAY_SECONDS as int)) * DAY_SECONDS + seconds,
    }
}

/// The tag that replaces a read expression: the timestamp, shown relative
/// to the reader's clock where a time of day was written.
pub open spec fn tag_of(when: When, sent: int) -> Seq<char> {
    "<t:"@ + decimal(stamp_of(when, sent)) + match when {
        When::Date { .. } => ">"@,
        When::Time { .. } => ":R>"@,
    }
}

/// The content after the first `upto` finds have been dealt with, one
/// after the other: each find that was read is replaced, where it first
/// occurs, by its tag; a find that was not read, or for which `read` has no
/// entry, is left alone.
pub open spec fn rewritten(
    content: Seq<char>,
    finds: Seq<FindView>,
    read: Seq<Option<When>>,
    sent: int,
    upto: int,
) -> Seq<char>
    decreases upto,
{
    if upto <= 0 {
        content
    } else {
        let before = rewritten(content, finds, read, sent, upto - 1);
        if upto <= read.len() && read[upto - 1] is Some {
            replace_first(before, finds[upto - 1].whole, tag_of(read[upto - 1]->0, sent))
        } else {
            before
        }
    }
}

/// The day on which the second `sent` falls, and the second of that day.
fn split_day(sent: i64) -> (parts: (i64, i64))
    requires
        CHRONO_MIN_SECONDS <= sent <= CHRONO_MAX_SECONDS,
    ensures
        parts.0 == sent as int / (DAY_SECONDS as int),
        parts.1 == sent as int % (DAY_SECONDS as int),
        0 <= parts.1 < DAY_SECONDS,
{
    if sent >= 0 {
        (sent / DAY_SECONDS, sent % DAY_SECONDS)
    } else {
        let back: i64 = -sent;
        let whole = back / DAY_SECONDS;
        let left = back % DAY_SECONDS;
        if left == 0 {
            (-whole, 0)
        } else {
            (-whole - 1, DAY_SECONDS - left)
        }
    }
}

/// Writes [`tag_of`].
pub fn make_tag(when: When, sent: i64) -> (tag: String)
    requires
        CHRONO_MIN_SECONDS <= sent <= CHRONO_MAX_SECONDS,
    ensures
        tag@ == tag_of(when, sent as int),
{
    let (day, second) = split_day(sent);
    let mut tag = String::from_str("<t:");
    match when {
        When::Date { days } => {
            let stamp: i64 = (days as i64) * DAY_SECONDS + second;
            push_i64(&mut tag, stamp);
            tag.append(">");
        },
        When::Time { seconds } => {
            let stamp: i64 = day * DAY_SECONDS + (seconds as i64);
            push_i64(&mut tag, stamp);
            tag.append(":R>");
        },
    }
    assert(tag@ =~= tag_of(when, sent as int));
    tag
}

/// The answer to a message whose expressions were read: the rewritten
/// content, posted where the message was, unless nothing changed.
pub open spec fn answer_of(
    channel: u64,
    content: Seq<char>,
    finds: Seq<FindView>,
    read: Seq<Option<When>>,
    sent: int,
) -> Option<(u64, Seq<char>)> {
    let after = rewritten(content, finds, read, sent, finds.len() as int);
    if after == content {
        None
    } else {
        Some((channel, after))
    }
}

/// A message to post.
#[derive(Debug, PartialEq, Eq)]
pub struct Post {
    pub channel: u64,
    pub content: String,
}

impl DateTransformer {
    /// What [`DateTransformer::on_event`] answers, given what the pattern
    /// finds in the message: a message that a user who is no bot wrote, that
    /// is not empty and that the pattern matches is read, everything else is
    /// passed over.
    pub open spec fn reads(
        &self,
        event: Event,
        reading: Result<Option<Reading>, DateFault>,
    ) -> bool {
        match event {
            Event::MessageCreate(message) => {
                if message.author.bot || message.content@.len() == 0 {
                    reading matches Ok(None)
                } else {
                    match regex_matches(self.regex_expr@, message.content@) {
                        None => reading matches Err(DateFault::BadPattern),
                        Some(false) => reading matches Ok(None),
                        Some(true) => match regex_all_captures(
                            self.regex_expr@,
                            message.content@,
                        ) {
                            None => reading matches Err(DateFault::BadPattern),
                            Some(matches) => match finds_of(matches) {
                                Err(fault) => reading == Err::<Option<Reading>, DateFault>(fault),
                                Ok(finds) => {
                                    if CHRONO_MIN_SECONDS <= message.timestamp <= CHRONO_MAX_SECONDS {
                                        &&& reading matches Ok(Some(r))
                                        &&& r.channel == message.channel_id
                                        &&& r.content@ == message.content@
                                        &&& r.timestamp == message.timestamp
                                        &&& r.finds.deep_view() == finds
                                    } else {
                                        reading matches Err(DateFault::BadTimestamp)
                                    }
                                },
                            },
                        },
                    }
                }
            },
            _ => reading matches Ok(None),
        }
    }

    /// The reactive path, first half: the expressions of `event` that are to
    /// be read. The caller reads `inner` of each find as a date or else as a
    /// time of day and hands what it read to [`transform`].
    pub fn on_event(&self, event: &Event) -> (reading: Result<Option<Reading>, DateFault>)
        ensures
            self.reads(*event, reading),
    {
        match event {
            Event::MessageCreate(message) => {
                if message.author.bot || message.content.as_str().is_empty() {
                    return Ok(None);
                }
                match is_match(self.regex_expr.as_str(), message.content.as_str()) {
                    None => {
                        return Err(DateFault::BadPattern);
                    },
                    Some(false) => {
                        return Ok(None);
                    },
                    Some(true) => {},
                }
                let matches = match all_captures(
                    self.regex_expr.as_str(),
                    message.content.as_str(),
                ) {
                    None => {
                        return Err(DateFault::BadPattern);
                    },
                    Some(matches) => matches,
                };
                let finds = match collect_finds(&matches) {
                    Err(fault) => {
                        return Err(fault);
                    },
                    Ok(finds) => finds,
                };
                if message.timestamp < CHRONO_MIN_SECONDS || message.timestamp > CHRONO_MAX_SECONDS {
                    return Err(DateFault::BadTimestamp);
                }
                Ok(
                    Some(
                        Reading {
                            channel: message.channel_id,
                            content: message.content.clone(),
                            timestamp: message.timestamp,
                            finds,
                        },
                    ),
                )
            },
            _ => Ok(None),
        }
    }

    /// The periodic path: the plugin keeps nothing that needs syncing.
    pub fn sync_db(&self) -> (posts: Vec<Post>)
        ensures
            posts@.len() == 0,
    {
        Vec::new()
    }
}

/// The reactive path, second half: rewrites the message with what was read
/// of its finds, `read[i]` being what `finds[i]` was read as, and answers
/// with the result unless it is the message again.
pub fn transform(reading: &Reading, read: &Vec<Option<When>>) -> (post: Result<
    Option<Post>,
    DateFault,
>)
    ensures
        match post {
            Err(fault) => fault == DateFault::BadTimestamp && !(CHRONO_MIN_SECONDS
                <= reading.timestamp <= CHRONO_MAX_SECONDS),
            Ok(answer) => {
                &&& CHRONO_MIN_SECONDS <= reading.timestamp <= CHRONO_MAX_SECONDS
                &&& match answer {
                    Some(p) => answer_of(
                        reading.channel,
                        reading.content@,
                        reading.finds.deep_view(),
                        read@,
                        reading.timestamp as int,
                    ) == Some((p.channel, p.content@)),
                    None => answer_of(
                        reading.channel,
                        reading.content@,
                        reading.finds.deep_view(),
                        read@,
                        reading.timestamp as int,
                    ) is None,
                }
            },
        },
{
    if reading.timestamp < CHRONO_MIN_SECONDS || reading.timestamp > CHRONO_MAX_SECONDS {
        return Err(DateFault::BadTimestamp);
    }
    let ghost finds = reading.finds.deep_view();
    let ghost sent = reading.timestamp as int;
    let mut content = reading.content.clone();
    let mut i: usize = 0;
    while i < reading.finds.len()
        invariant
            i <= reading.finds@.len(),
            finds == reading.finds.deep_view(),
            sent == reading.timestamp,
            CHRONO_MIN_SECONDS <= reading.timestamp <= CHRONO_MAX_SECONDS,
            content@ == rewritten(reading.content@, finds, read@, sent, i as int),
        decreases reading.finds@.len() - i,
    {
        if i < read.len() {
            match read[i] {
                Some(when) => {
                    let tag = make_tag(when, reading.timestamp);
                    assert(finds[i as int] == reading.finds@[i as int].deep_view());
                    content = replace_once(
                        content.as_str(),
                        reading.finds[i].whole.as_str(),
                        tag.as_str(),
                    );
                },
                None => {},
            }
        }
        i += 1;
    }
    if content == reading.content {
        Ok(None)
    } else {
        Ok(Some(Post { channel: reading.channel, content }))
    }
}

} // verus!
