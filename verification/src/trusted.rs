//! The calls into other crates. Verus takes each contract in this file on
//! trust: none of these bodies is verified.

use dashmap::DashMap;
use rand::seq::SliceRandom;
use regex::Regex;
use twilight_model::gateway::event::GatewayEventDeserializer;
use twilight_model::gateway::OpCode;
use vstd::prelude::*;

verus! {

/// The least number of seconds since the Unix epoch that a `chrono` date
/// holds: the first second of the year -262143.
pub const CHRONO_MIN_SECONDS: i64 = -8_334_601_228_800;

/// The greatest number of seconds since the Unix epoch that a `chrono` date
/// holds: the last second of the year 262142.
pub const CHRONO_MAX_SECONDS: i64 = 8_210_266_876_799;

/// The whole seconds since the Unix epoch of a store timestamp, which counts
/// milliseconds: rounded down, and held within what a `chrono` date can say.
pub open spec fn epoch_seconds(millis: int) -> int {
    let seconds = millis / 1000;
    if seconds < CHRONO_MIN_SECONDS {
        CHRONO_MIN_SECONDS as int
    } else if seconds > CHRONO_MAX_SECONDS {
        CHRONO_MAX_SECONDS as int
    } else {
        seconds
    }
}

/// `bson::DateTime::to_chrono` followed by `chrono::DateTime::timestamp`,
/// on the `bson::DateTime` of `millis` milliseconds.
///
/// `to_chrono` turns the milliseconds into a `chrono` date where one exists
/// for them, which then reports the seconds rounded down; where none exists
/// it answers with the earliest or the latest `chrono` date, whichever is
/// nearer.
#[verifier::external_body]
pub(crate) fn store_timestamp_seconds(millis: i64) -> (seconds: i64)
    ensures
        seconds == epoch_seconds(millis as int),
{
    bson::DateTime::from_millis(millis).to_chrono().timestamp()
}

/// `chrono::Utc::now` read through `chrono::DateTime::timestamp`: the
/// seconds since the Unix epoch on the system clock. The clock decides the
/// value; a `chrono` date bounds it.
#[verifier::external_body]
pub(crate) fn clock_seconds() -> (seconds: i64)
    ensures
        CHRONO_MIN_SECONDS <= seconds <= CHRONO_MAX_SECONDS,
{
    chrono::Utc::now().timestamp()
}

/// `chrono::Utc::now` read through `chrono::DateTime::timestamp_millis`, as
/// `bson::DateTime::from_chrono` reads it: the milliseconds since the Unix
/// epoch on the system clock. The clock decides the value; a `chrono` date
/// bounds it.
#[verifier::external_body]
pub(crate) fn clock_millis() -> (millis: i64)
    ensures
        CHRONO_MIN_SECONDS * 1000 <= millis <= CHRONO_MAX_SECONDS * 1000 + 999,
{
    bson::DateTime::from_chrono(chrono::Utc::now()).timestamp_millis()
}

/// `picked` holds the items of `pool` at the positions `indices`, position
/// by position, and no position occurs twice.
pub open spec fn drawn_at<T>(picked: Seq<T>, pool: Seq<T>, indices: Seq<int>) -> bool {
    &&& indices.len() == picked.len()
    &&& forall|k: int|
        0 <= k < indices.len() ==> 0 <= #[trigger] indices[k] < pool.len() && picked[k]
            == pool[indices[k]]
    &&& forall|a: int, b: int|
        0 <= a < b < indices.len() ==> #[trigger] indices[a] != #[trigger] indices[b]
}

/// `picked` is a sample of `amount` items of `pool` without replacement: as
/// many items as asked for, or the whole pool where it holds fewer, taken at
/// pairwise different positions.
pub open spec fn is_sample_of<T>(picked: Seq<T>, pool: Seq<T>, amount: nat) -> bool {
    &&& picked.len() == if amount <= pool.len() {
        amount
    } else {
        pool.len()
    }
    &&& exists|indices: Seq<int>| drawn_at(picked, pool, indices)
}

/// `rand::seq::SliceRandom::choose_multiple` on `pool`, with the generator
/// of `rand::thread_rng`, collected into a vector.
///
/// The crate draws `amount` positions of the slice, or as many as the slice
/// has where it has fewer, no position twice, and hands out the items at
/// those positions. Which positions, and in what order, is left to chance.
#[verifier::external_body]
pub(crate) fn choose_multiple(pool: &Vec<u64>, amount: usize) -> (picked: Vec<u64>)
    ensures
        is_sample_of(picked@, pool@, amount as nat),
{
    pool.choose_multiple(&mut rand::thread_rng(), amount).cloned().collect()
}

/// What a scan of a gateway payload finds: the opcode, the sequence number
/// and the event type.
pub type FrameParts = (u8, Option<u64>, Option<String>);

/// [`FrameParts`] as specifications see them.
pub type FramePartsView = (u8, Option<u64>, Option<Seq<char>>);

/// What `twilight_model`'s scan finds in the payload `json`, or `None`
/// where it finds no opcode.
pub uninterp spec fn scanned_frame(json: Seq<char>) -> Option<(u8, Option<u64>, Option<Seq<char>>)>;

/// The parts of a scanned payload, with the event type as a sequence.
pub open spec fn frame_parts_view(parts: Option<FrameParts>) -> Option<FramePartsView> {
    match parts {
        Some((op, sequence, event_type)) => Some(
            (
                op,
                sequence,
                match event_type {
                    Some(name) => Some(name@),
                    None => None,
                },
            ),
        ),
        None => None,
    }
}

/// `twilight_model::gateway::event::GatewayEventDeserializer::from_json`
/// followed by `into_parts`: the scan of a gateway payload for its opcode,
/// sequence number and event type, without decoding the payload.
///
/// The scan reads nothing but the text it is given, so the same text always
/// gives the same parts. What it finds in a given text is not stated here.
#[verifier::external_body]
pub(crate) fn scan_frame(json: &str) -> (parts: Option<FrameParts>)
    ensures
        frame_parts_view(parts) == scanned_frame(json@),
{
    GatewayEventDeserializer::from_json(json).map(
        |found| {
            let (op, sequence, event_type) = found.into_parts();
            (op, sequence, event_type.map(ToOwned::to_owned))
        },
    )
}

/// The number of `twilight_model::gateway::OpCode::HeartbeatAck`: 11, as
/// the enum declares it.
#[verifier::external_body]
pub(crate) fn heartbeat_ack_opcode() -> (op: u8)
    ensures
        op == 11,
{
    OpCode::HeartbeatAck as u8
}

/// The number of `twilight_model::gateway::OpCode::Reconnect`: 7, as the
/// enum declares it.
#[verifier::external_body]
pub(crate) fn reconnect_opcode() -> (op: u8)
    ensures
        op == 7,
{
    OpCode::Reconnect as u8
}

/// Whether `c` is a decimal digit or one of the letters `a` to `f`.
pub open spec fn is_lower_hex(c: char) -> bool {
    48 <= c as u32 <= 57 || 97 <= c as u32 <= 102
}

/// The shape of a random (version 4) UUID in its usual notation: 36
/// characters, hyphens after the 8th, 12th, 16th and 20th hexadecimal digit,
/// lower-case digits elsewhere, the version digit `4` and a variant digit
/// from `8` to `b`.
pub open spec fn is_random_uuid_text(text: Seq<char>) -> bool {
    &&& text.len() == 36
    &&& forall|i: int|
        0 <= i < 36 ==> if i == 8 || i == 13 || i == 18 || i == 23 {
            #[trigger] text[i] == '-'
        } else {
            is_lower_hex(text[i])
        }
    &&& text[14] == '4'
    &&& text[19] == '8' || text[19] == '9' || text[19] == 'a' || text[19] == 'b'
}

/// `uuid::Uuid::new_v4` written out with `to_string`.
///
/// The crate fills the identifier with random bits, sets its version to 4
/// and its variant to the standard one, and writes it in lower case with
/// hyphens. Which identifier comes out is left to chance.
#[verifier::external_body]
pub(crate) fn random_uuid_text() -> (text: String)
    ensures
        is_random_uuid_text(text@),
{
    uuid::Uuid::new_v4().to_string()
}

/// `dashmap::DashMap`, a concurrent hash map. Verus sees nothing inside it.
#[verifier::external_type_specification]
#[verifier::external_body]
#[verifier::reject_recursive_types(K)]
#[verifier::reject_recursive_types(V)]
#[verifier::reject_recursive_types(S)]
pub struct ExDashMap<K, V, S>(DashMap<K, V, S>);

/// What a map of message counts holds: for each guild and user, in that
/// order, the number of messages counted.
pub uninterp spec fn counts_of(counts: DashMap<(u64, u64), i64>) -> Map<(u64, u64), i64>;

/// The counts of a map that holds nothing.
pub open spec fn no_counts() -> Map<(u64, u64), i64> {
    Map::empty()
}

/// `DashMap::new`: a map that holds nothing.
#[verifier::external_body]
pub(crate) fn new_counts() -> (counts: DashMap<(u64, u64), i64>)
    ensures
        counts_of(counts) == no_counts(),
{
    DashMap::new()
}

/// `DashMap::get`, copied out: the count kept for `user` in `guild`, if one
/// is kept.
#[verifier::external_body]
pub(crate) fn count_of(counts: &DashMap<(u64, u64), i64>, guild: u64, user: u64) -> (count: Option<
    i64,
>)
    ensures
        count == if counts_of(*counts).contains_key((guild, user)) {
            Some(counts_of(*counts)[(guild, user)])
        } else {
            None
        },
{
    counts.get(&(guild, user)).map(|entry| *entry)
}

/// `DashMap::insert`: the map afterwards keeps `count` for `user` in
/// `guild`, and is unchanged otherwise.
#[verifier::external_body]
pub(crate) fn put_count(counts: &mut DashMap<(u64, u64), i64>, guild: u64, user: u64, count: i64)
    ensures
        counts_of(*final(counts)) == counts_of(*old(counts)).insert((guild, user), count),
{
    counts.insert((guild, user), count);
}

/// `DashMap::iter`, collected: every entry of the map, once, as guild, user
/// and count. The order is whatever the map's hashing makes it.
#[verifier::external_body]
pub(crate) fn all_counts(counts: &DashMap<(u64, u64), i64>) -> (rows: Vec<(u64, u64, i64)>)
    ensures
        forall|i: int|
            0 <= i < rows@.len() ==> counts_of(*counts).contains_pair(
                ((#[trigger] rows@[i]).0, rows@[i].1),
                rows@[i].2,
            ),
        forall|i: int, j: int|
            0 <= i < j < rows@.len() ==> ((#[trigger] rows@[i]).0, rows@[i].1) != ((
                #[trigger] rows@[j]).0, rows@[j].1),
        forall|key: (u64, u64)|
            counts_of(*counts).contains_key(key) ==> exists|i: int|
                0 <= i < rows@.len() && (#[trigger] rows@[i]).0 == key.0 && rows@[i].1 == key.1,
{
    counts.iter().map(|entry| (entry.key().0, entry.key().1, *entry.value())).collect()
}

/// `DashMap::clear`: the map afterwards holds nothing.
#[verifier::external_body]
pub(crate) fn clear_counts(counts: &mut DashMap<(u64, u64), i64>)
    ensures
        counts_of(*final(counts)) == no_counts(),
{
    counts.clear();
}

/// What a map of away notes holds: for each user who is away, the note
/// that the user left.
pub uninterp spec fn notes_of(notes: DashMap<u64, String>) -> Map<u64, Seq<char>>;

/// The notes of a map that holds nothing.
pub open spec fn no_notes() -> Map<u64, Seq<char>> {
    Map::empty()
}

/// `DashMap::new`: a map that holds nothing.
#[verifier::external_body]
pub(crate) fn new_notes() -> (notes: DashMap<u64, String>)
    ensures
        notes_of(notes) == no_notes(),
{
    DashMap::new()
}

/// `DashMap::get`, cloned out: the note kept for `user`, if one is kept.
#[verifier::external_body]
pub(crate) fn note_of(notes: &DashMap<u64, String>, user: u64) -> (note: Option<String>)
    ensures
        match note {
            Some(text) => notes_of(*notes).contains_pair(user, text@),
            None => !notes_of(*notes).contains_key(user),
        },
{
    notes.get(&user).map(|entry| entry.value().clone())
}

/// `DashMap::insert`: the map afterwards keeps `note` for `user`, and is
/// unchanged otherwise.
#[verifier::external_body]
pub(crate) fn put_note(notes: &mut DashMap<u64, String>, user: u64, note: String)
    ensures
        notes_of(*final(notes)) == notes_of(*old(notes)).insert(user, note@),
{
    notes.insert(user, note);
}

/// `DashMap::remove`: the map afterwards keeps nothing for `user`, and is
/// unchanged otherwise.
#[verifier::external_body]
pub(crate) fn drop_note(notes: &mut DashMap<u64, String>, user: u64)
    ensures
        notes_of(*final(notes)) == notes_of(*old(notes)).remove(user),
{
    notes.remove(&user);
}

/// `DashMap::iter`, with the keys collected: every user for whom the map
/// keeps a note, once. The order is whatever the map's hashing makes it.
#[verifier::external_body]
pub(crate) fn noted_users(notes: &DashMap<u64, String>) -> (users: Vec<u64>)
    ensures
        forall|i: int| 0 <= i < users@.len() ==> notes_of(*notes).contains_key(#[trigger] users@[i]),
        forall|i: int, j: int| 0 <= i < j < users@.len() ==> users@[i] != users@[j],
        forall|user: u64| notes_of(*notes).contains_key(user) ==> users@.contains(user),
{
    notes.iter().map(|entry| *entry.key()).collect()
}

/// `String::push`: appends one character to the text.
#[verifier::external_body]
pub(crate) fn push_char(out: &mut String, c: char)
    ensures
        final(out)@ == old(out)@.push(c),
{
    out.push(c);
}

/// The groups of one match as specifications see them: for each group of
/// the pattern, the text it matched, or `None` where it took no part.
pub open spec fn groups_view(groups: Vec<Option<String>>) -> Seq<Option<Seq<char>>> {
    Seq::new(
        groups@.len(),
        |i: int|
            match groups@[i] {
                Some(text) => Some(text@),
                None => None,
            },
    )
}

/// Whether the regular expression `pattern` matches somewhere in `text`;
/// `None` where `pattern` is no regular expression.
pub uninterp spec fn regex_matches(pattern: Seq<char>, text: Seq<char>) -> Option<bool>;

/// The groups of the leftmost match of `pattern` in `text`: `None` where
/// `pattern` is no regular expression, `Some(None)` where it matches nowhere.
pub uninterp spec fn regex_captures(pattern: Seq<char>, text: Seq<char>) -> Option<
    Option<Seq<Option<Seq<char>>>>,
>;

/// The groups of every match of `pattern` in `text`, from left to right,
/// no two matches overlapping; `None` where `pattern` is no regular
/// expression.
pub uninterp spec fn regex_all_captures(pattern: Seq<char>, text: Seq<char>) -> Option<
    Seq<Seq<Option<Seq<char>>>>,
>;

/// The view of what [`captures`] returns.
pub open spec fn captures_view(found: Option<Option<Vec<Option<String>>>>) -> Option<
    Option<Seq<Option<Seq<char>>>>,
> {
    match found {
        None => None,
        Some(None) => Some(None),
        Some(Some(groups)) => Some(Some(groups_view(groups))),
    }
}

/// The view of what [`all_captures`] returns.
pub open spec fn all_captures_view(found: Option<Vec<Vec<Option<String>>>>) -> Option<
    Seq<Seq<Option<Seq<char>>>>,
> {
    match found {
        None => None,
        Some(matches) => Some(Seq::new(matches@.len(), |i: int| groups_view(matches@[i]))),
    }
}

/// `regex::Regex::new` followed by `Regex::is_match`. The answer depends on
/// the pattern and the text alone. Which texts a pattern matches is not
/// stated here.
#[verifier::external_body]
pub(crate) fn is_match(pattern: &str, text: &str) -> (answer: Option<bool>)
    ensures
        answer == regex_matches(pattern@, text@),
{
    Regex::new(pattern).ok().map(|compiled| compiled.is_match(text))
}

/// `regex::Regex::new` followed by `Regex::captures`, with the text of each
/// group copied out. The answer depends on the pattern and the text alone.
/// What a pattern captures in a text is not stated here.
#[verifier::external_body]
pub(crate) fn captures(pattern: &str, text: &str) -> (found: Option<Option<Vec<Option<String>>>>)
    ensures
        captures_view(found) == regex_captures(pattern@, text@),
{
    let compiled = Regex::new(pattern).ok()?;
    Some(
        compiled.captures(text).map(
            |groups| groups.iter().map(|group| group.map(|m| m.as_str().to_owned())).collect(),
        ),
    )
}

/// `regex::Regex::new` followed by `Regex::captures_iter`, with the text of
/// each group of each match copied out. The answer depends on the pattern
/// and the text alone. What a pattern captures in a text is not stated here.
#[verifier::external_body]
pub(crate) fn all_captures(pattern: &str, text: &str) -> (found: Option<Vec<Vec<Option<String>>>>)
    ensures
        all_captures_view(found) == regex_all_captures(pattern@, text@),
{
    let compiled = Regex::new(pattern).ok()?;
    Some(
        compiled.captures_iter(text).map(
            |groups| groups.iter().map(|group| group.map(|m| m.as_str().to_owned())).collect(),
        ).collect(),
    )
}

/// What a map from user names to users holds.
pub uninterp spec fn names_of(names: DashMap<String, u64>) -> Map<Seq<char>, u64>;

/// The names of a map that holds nothing.
pub open spec fn no_names() -> Map<Seq<char>, u64> {
    Map::empty()
}

/// `DashMap::new`: a map that holds nothing.
#[verifier::external_body]
pub(crate) fn new_names() -> (names: DashMap<String, u64>)
    ensures
        names_of(names) == no_names(),
{
    DashMap::new()
}

/// `DashMap::get`, copied out: the user kept under `name`, if one is kept.
#[verifier::external_body]
pub(crate) fn user_named(names: &DashMap<String, u64>, name: &String) -> (user: Option<u64>)
    ensures
        user == if names_of(*names).contains_key(name@) {
            Some(names_of(*names)[name@])
        } else {
            None
        },
{
    names.get(name).map(|entry| *entry)
}

/// `DashMap::insert`: the map afterwards keeps `user` under `name`, and is
/// unchanged otherwise.
#[verifier::external_body]
pub(crate) fn put_name(names: &mut DashMap<String, u64>, name: String, user: u64)
    ensures
        names_of(*final(names)) == names_of(*old(names)).insert(name@, user),
{
    names.insert(name, user);
}

} // verus!
