//! The plugin that follows the trades and transfers which a currency bot
//! announces in chat.

use crate::event::{ChatMessage, EmbedField, Event, UserRef};
use crate::plugin::Plugin;
use crate::text::{contains_char, parse_i64, parse_i64_spec, parse_u64, parse_u64_spec};
use crate::text::{remove_char, without};
use crate::trusted::{captures, captures_view, regex_captures};
use crate::trusted::{names_of, new_names, no_names, put_name, user_named};
use dashmap::DashMap;
use vstd::prelude::*;
use vstd::string::StringExecFns;
use vstd::string::StringSliceAdditionalSpecFns;
use vstd::utf8::{decode_utf8, encode_utf8, encode_utf8_decode_utf8, is_char_boundary};

verus! {

/// The user whose announcements the plugin reads.
pub const BOT_USER: u64 = 270904126974590976;

/// The sign of the currency.
pub const CURRENCY_SIGN: char = '\u{23e3}';

/// How many characters the third field of a transfer carries after the
/// receiver's name, counted in bytes.
pub const NAME_SUFFIX_BYTES: usize = 9;

/// How many of the latest messages are searched for a mention of the receiver.
pub const MENTION_SEARCH_LIMIT: u16 = 10;

/// The pattern of an amount with its tax.
pub open spec fn amount_pattern() -> Seq<char> {
    "^`\u{23e3} ([\\d,]+)` \\(\\+ \u{23e3} ([\\d,]+) tax\\)$"@
}

/// The pattern of a traded item: how many, which emoji, what name.
pub open spec fn item_pattern() -> Seq<char> {
    "^<:Reply:870665583593660476>\\*\\*([\\d,]*)x\\*\\* <:(\\w*):(?:\\d*)> \\*\\*([\\w ]*)\\*\\*$"@
}

/// The plugin that tracks the currency bot.
#[derive(Debug)]
pub struct DankMemer {
    /// The regular expression that reads an amount.
    pub amount_expr: String,
    /// The regular expression that reads a traded item.
    pub item_expr: String,
    /// The users that were found by name before.
    pub cache: DashMap<String, u64>,
}

impl Plugin for DankMemer {
    open spec fn spec_name(&self) -> Seq<char> {
        "dank_memer"@
    }

    fn name(&self) -> (name: &'static str) {
        "dank_memer"
    }

    fn description(&self) -> (text: &'static str) {
        "Tracking dank memer data"
    }

    open spec fn spec_description(&self) -> Seq<char> {
        "Tracking dank memer data"@
    }
}

impl Default for DankMemer {
    fn default() -> (plugin: Self)
        ensures
            plugin.amount_expr@ == amount_pattern(),
            plugin.item_expr@ == item_pattern(),
            plugin.names() == no_names(),
    {
        DankMemer {
            amount_expr: String::from_str(
                "^`\u{23e3} ([\\d,]+)` \\(\\+ \u{23e3} ([\\d,]+) tax\\)$",
            ),
            item_expr: String::from_str(
                "^<:Reply:870665583593660476>\\*\\*([\\d,]*)x\\*\\* <:(\\w*):(?:\\d*)> \\*\\*([\\w ]*)\\*\\*$",
            ),
            cache: new_names(),
        }
    }
}

/// Why the plugin cannot go on. A fault ends the handling of the one event.
#[derive(Clone, Copy, PartialEq, Eq, Structural, Debug)]
pub enum DankFault {
    /// The embed has fewer fields than the announcement needs.
    MissingField,
    /// A pattern of the plugin is no regular expression.
    BadPattern,
    /// A field does not read as the pattern says.
    NoMatch,
    /// A match lacks a group that the pattern should have filled.
    MissingGroup,
    /// The announcement answers a message without naming it.
    MissingReference,
    /// The receiver's field is too short to hold a name, or the cut falls
    /// inside a character.
    BadName,
    /// The announcement was not posted in a guild.
    MissingGuild,
}

/// What kind of announcement a message is.
#[derive(Clone, Copy, PartialEq, Eq, Structural, Debug)]
pub enum Announcement {
    /// Currency went from one user to another.
    Transfer,
    /// Items were traded for currency.
    Trade,
    /// Nothing the plugin follows.
    Other,
}

/// A trade as it is recorded. The price per item and the date are added
/// by whoever writes the record.
#[derive(Debug, PartialEq, Eq)]
pub struct Trade {
    pub amount: i64,
    pub price: i64,
    pub item_id: String,
    pub item_name: String,
}

/// Whether `message` has the marks of a transfer: it comes from the bot,
/// has no text and at least one embed, answers a message, and the first two
/// fields of the first embed are called "Shared" and "Your Pocket". `Err`
/// where the first field is called "Shared" and there is no second.
pub open spec fn is_transfer(message: ChatMessage) -> Result<bool, DankFault> {
    if message.author.id != BOT_USER || message.content@.len() > 0 || message.embeds@.len() == 0
        || message.reference is None || message.embeds@[0].fields@.len() == 0
        || message.embeds@[0].fields@[0].name@ != "Shared"@ {
        Ok(false)
    } else if message.embeds@[0].fields@.len() < 2 {
        Err(DankFault::MissingField)
    } else {
        Ok(message.embeds@[0].fields@[1].name@ == "Your Pocket"@)
    }
}

/// What kind of announcement `message` is: a transfer where it has the
/// marks of one, else a trade where its first embed is titled "Successful
/// Trade!".
pub open spec fn announcement_of(message: ChatMessage) -> Result<Announcement, DankFault> {
    match is_transfer(message) {
        Err(fault) => Err(fault),
        Ok(true) => Ok(Announcement::Transfer),
        Ok(false) => {
            if message.embeds@.len() > 0 && message.embeds@[0].title is Some
                && message.embeds@[0].title->0@ == "Successful Trade!"@ {
                Ok(Announcement::Trade)
            } else {
                Ok(Announcement::Other)
            }
        },
    }
}

/// Computes [`announcement_of`].
pub fn classify(message: &ChatMessage) -> (kind: Result<Announcement, DankFault>)
    ensures
        kind == announcement_of(*message),
{
    let shared = String::from_str("Shared");
    let pocket = String::from_str("Your Pocket");
    let traded = String::from_str("Successful Trade!");
    let mut transfer = false;
    if message.author.id == BOT_USER && message.content.as_str().is_empty()
        && message.embeds.len() > 0 && message.reference.is_some() {
        let fields = &message.embeds[0].fields;
        if fields.len() > 0 && fields[0].name == shared {
            if fields.len() < 2 {
                return Err(DankFault::MissingField);
            }
            transfer = fields[1].name == pocket;
        }
    }
    if transfer {
        Ok(Announcement::Transfer)
    } else if message.embeds.len() > 0 {
        match &message.embeds[0].title {
            Some(title) => {
                if *title == traded {
                    Ok(Announcement::Trade)
                } else {
                    Ok(Announcement::Other)
                }
            },
            None => Ok(Announcement::Other),
        }
    } else {
        Ok(Announcement::Other)
    }
}

/// How many of the first `upto` fields name the currency in their value.
pub open spec fn priced_fields(fields: Seq<EmbedField>, upto: int) -> nat
    decreases upto,
{
    if upto <= 0 {
        0
    } else {
        priced_fields(fields, upto - 1) + if fields[upto - 1].value@.contains(CURRENCY_SIGN) {
            1nat
        } else {
            0nat
        }
    }
}

/// The positions of the field that holds the price and of the field that
/// holds the item, in that order: the first two fields, the price being
/// the first one where that names the currency and the second one
/// otherwise. `None` unless exactly one field names the currency; `Err`
/// where that field is the only one.
pub open spec fn trade_fields(fields: Seq<EmbedField>) -> Option<Result<(int, int), DankFault>> {
    if priced_fields(fields, fields.len() as int) != 1 {
        None
    } else if !fields[0].value@.contains(CURRENCY_SIGN) {
        Some(Ok((1int, 0int)))
    } else if fields.len() < 2 {
        Some(Err(DankFault::MissingField))
    } else {
        Some(Ok((0int, 1int)))
    }
}

proof fn lemma_priced_fields_bounds(fields: Seq<EmbedField>, upto: int)
    requires
        0 <= upto <= fields.len(),
    ensures
        priced_fields(fields, upto) <= upto,
        priced_fields(fields, upto) > 0 ==> exists|i: int|
            0 <= i < upto && (#[trigger] fields[i]).value@.contains(CURRENCY_SIGN),
    decreases upto,
{
    if upto > 0 {
        lemma_priced_fields_bounds(fields, upto - 1);
        if priced_fields(fields, upto) > 0 {
            if fields[upto - 1].value@.contains(CURRENCY_SIGN) {
            } else {
                let i = choose|i: int|
                    0 <= i < upto - 1 && (#[trigger] fields[i]).value@.contains(CURRENCY_SIGN);
                assert(fields[i].value@.contains(CURRENCY_SIGN));
            }
        }
    }
}

/// Computes [`trade_fields`].
pub fn pick_trade_fields(fields: &Vec<EmbedField>) -> (picked: Option<
    Result<(usize, usize), DankFault>,
>)
    ensures
        match picked {
            None => trade_fields(fields@) is None,
            Some(Err(fault)) => trade_fields(fields@) == Some(
                Err::<(int, int), DankFault>(fault),
            ),
            Some(Ok((price, item))) => trade_fields(fields@) == Some(
                Ok::<(int, int), DankFault>((price as int, item as int)),
            ) && price < fields@.len() && item < fields@.len(),
        },
{
    let mut count: usize = 0;
    let mut i: usize = 0;
    while i < fields.len()
        invariant
            i <= fields@.len(),
            count == priced_fields(fields@, i as int),
            count <= i,
        decreases fields@.len() - i,
    {
        if contains_char(fields[i].value.as_str(), CURRENCY_SIGN) {
            count += 1;
        }
        i += 1;
    }
    if count != 1 {
        return None;
    }
    proof {
        lemma_priced_fields_bounds(fields@, fields@.len() as int);
    }
    if !contains_char(fields[0].value.as_str(), CURRENCY_SIGN) {
        proof {
            // The one field that names the currency is not the first.
            let at = choose|at: int|
                0 <= at < fields@.len() && (#[trigger] fields@[at]).value@.contains(CURRENCY_SIGN);
            assert(at >= 1);
        }
        Some(Ok((1, 0)))
    } else if fields.len() < 2 {
        Some(Err(DankFault::MissingField))
    } else {
        Some(Ok((0, 1)))
    }
}

/// The text of group `index` of a match, with its commas taken out where
/// `plain` is not set. `Err` where the pattern is no regular expression, the
/// text does not match, or the group is missing.
pub open spec fn group_of(
    found: Option<Option<Seq<Option<Seq<char>>>>>,
    index: int,
) -> Result<Seq<char>, DankFault> {
    match found {
        None => Err(DankFault::BadPattern),
        Some(None) => Err(DankFault::NoMatch),
        Some(Some(groups)) => {
            if 0 <= index < groups.len() && groups[index] is Some {
                Ok(groups[index]->0)
            } else {
                Err(DankFault::MissingGroup)
            }
        },
    }
}

/// Computes [`group_of`].
pub fn take_group(found: &Option<Option<Vec<Option<String>>>>, index: usize) -> (text: Result<
    String,
    DankFault,
>)
    ensures
        match text {
            Ok(t) => group_of(captures_view(*found), index as int) == Ok::<Seq<char>, DankFault>(
                t@,
            ),
            Err(fault) => group_of(captures_view(*found), index as int) == Err::<
                Seq<char>,
                DankFault,
            >(fault),
        },
{
    match found {
        None => Err(DankFault::BadPattern),
        Some(None) => Err(DankFault::NoMatch),
        Some(Some(groups)) => {
            if index < groups.len() {
                match &groups[index] {
                    Some(text) => Ok(text.clone()),
                    None => Err(DankFault::MissingGroup),
                }
            } else {
                Err(DankFault::MissingGroup)
            }
        },
    }
}

/// A failure that the plugin reports for the event.
#[derive(Clone, Copy, PartialEq, Eq, Structural, Debug)]
pub enum DankError {
    /// A number in the announcement does not read as one.
    BadNumber,
}

/// A trade as specifications see it.
pub struct TradeView {
    pub amount: i64,
    pub price: i64,
    pub item_id: Seq<char>,
    pub item_name: Seq<char>,
}

impl DeepView for Trade {
    type V = TradeView;

    open spec fn deep_view(&self) -> TradeView {
        TradeView {
            amount: self.amount,
            price: self.price,
            item_id: self.item_id@,
            item_name: self.item_name@,
        }
    }
}

/// The trade that the matches of the price field and of the item field
/// make. The price is the first group of the amount pattern; the number of
/// items, the item and its name are the three groups of the item pattern.
/// Commas in the numbers are skipped. A fault comes before a number that
/// does not read.
pub open spec fn trade_of(
    price_match: Option<Option<Seq<Option<Seq<char>>>>>,
    item_match: Option<Option<Seq<Option<Seq<char>>>>>,
) -> Result<Result<TradeView, DankError>, DankFault> {
    match (
        group_of(price_match, 1),
        group_of(item_match, 1),
        group_of(item_match, 2),
        group_of(item_match, 3),
    ) {
        (Ok(price), Ok(amount), Ok(item_id), Ok(item_name)) => {
            match (parse_i64_spec(without(amount, ',')), parse_i64_spec(without(price, ','))) {
                (Some(amount), Some(price)) => Ok(
                    Ok(TradeView { amount, price, item_id, item_name }),
                ),
                _ => Ok(Err(DankError::BadNumber)),
            }
        },
        (Err(fault), _, _, _) => Err(fault),
        (_, Err(fault), _, _) => Err(fault),
        (_, _, Err(fault), _) => Err(fault),
        (_, _, _, Err(fault)) => Err(fault),
    }
}

/// The view of what [`read_trade`] returns.
pub open spec fn trade_result_view(read: Result<Result<Trade, DankError>, DankFault>) -> Result<
    Result<TradeView, DankError>,
    DankFault,
> {
    match read {
        Ok(Ok(trade)) => Ok(Ok(trade.deep_view())),
        Ok(Err(error)) => Ok(Err(error)),
        Err(fault) => Err(fault),
    }
}

/// Reads a trade from the matches of its two fields, as [`trade_of`] says.
pub fn read_trade(
    price_match: &Option<Option<Vec<Option<String>>>>,
    item_match: &Option<Option<Vec<Option<String>>>>,
) -> (read: Result<Result<Trade, DankError>, DankFault>)
    ensures
        trade_result_view(read) == trade_of(
            captures_view(*price_match),
            captures_view(*item_match),
        ),
{
    let price_text = match take_group(price_match, 1) {
        Ok(text) => text,
        Err(fault) => {
            return Err(fault);
        },
    };
    let amount_text = match take_group(item_match, 1) {
        Ok(text) => text,
        Err(fault) => {
            return Err(fault);
        },
    };
    let item_id = match take_group(item_match, 2) {
        Ok(text) => text,
        Err(fault) => {
            return Err(fault);
        },
    };
    let item_name = match take_group(item_match, 3) {
        Ok(text) => text,
        Err(fault) => {
            return Err(fault);
        },
    };
    let amount = parse_i64(remove_char(amount_text.as_str(), ',').as_str());
    let price = parse_i64(remove_char(price_text.as_str(), ',').as_str());
    match (amount, price) {
        (Some(amount), Some(price)) => Ok(Ok(Trade { amount, price, item_id, item_name })),
        _ => Ok(Err(DankError::BadNumber)),
    }
}

/// The receiver's name in a transfer: the name of the third field without
/// its last [`NAME_SUFFIX_BYTES`] bytes.
pub open spec fn receiver_of(fields: Seq<EmbedField>) -> Result<Seq<char>, DankFault> {
    if fields.len() < 3 {
        Err(DankFault::MissingField)
    } else {
        let bytes = encode_utf8(fields[2].name@);
        if bytes.len() < NAME_SUFFIX_BYTES || !is_char_boundary(
            bytes,
            bytes.len() - NAME_SUFFIX_BYTES,
        ) {
            Err(DankFault::BadName)
        } else {
            Ok(decode_utf8(bytes.subrange(0, bytes.len() - NAME_SUFFIX_BYTES)))
        }
    }
}

/// Computes [`receiver_of`].
pub fn read_receiver(fields: &Vec<EmbedField>) -> (name: Result<String, DankFault>)
    ensures
        match name {
            Ok(text) => receiver_of(fields@) == Ok::<Seq<char>, DankFault>(text@),
            Err(fault) => receiver_of(fields@) == Err::<Seq<char>, DankFault>(fault),
        },
{
    if fields.len() < 3 {
        return Err(DankFault::MissingField);
    }
    let text = fields[2].name.as_str();
    let n = text.as_bytes().len();
    let ghost bytes = encode_utf8(fields@[2].name@);
    assert(text.spec_bytes() == bytes);
    assert(n == bytes.len());
    if n < NAME_SUFFIX_BYTES {
        return Err(DankFault::BadName);
    }
    if !text.is_char_boundary(n - NAME_SUFFIX_BYTES) {
        return Err(DankFault::BadName);
    }
    let (name, _) = text.split_at(n - NAME_SUFFIX_BYTES);
    proof {
        encode_utf8_decode_utf8(name@);
        assert(name.spec_bytes() == bytes.subrange(0, bytes.len() - NAME_SUFFIX_BYTES));
        assert(decode_utf8(encode_utf8(name@)) == name@);
    }
    Ok(String::from_str(name))
}

/// A transfer as it is recorded.
#[derive(Clone, Copy, PartialEq, Eq, Structural, Debug)]
pub struct Transfer {
    pub sender: u64,
    pub receiver: u64,
    pub amount: u64,
    /// When the announcement was posted, in seconds since the Unix epoch.
    pub timestamp: i64,
    pub channel: u64,
    pub guild: u64,
}

/// What the plugin keeps of a transfer announcement while it looks for the
/// users involved.
#[derive(Debug, PartialEq, Eq)]
pub struct Draft {
    pub channel: u64,
    pub message: u64,
    pub guild: Option<u64>,
    pub timestamp: i64,
    /// The receiver's name, or what is wrong with it.
    pub receiver: Result<String, DankFault>,
    /// The field that holds the amount.
    pub amount_row: String,
}

/// A [`Draft`] as specifications see it.
pub struct DraftView {
    pub channel: u64,
    pub message: u64,
    pub guild: Option<u64>,
    pub timestamp: i64,
    pub receiver: Result<Seq<char>, DankFault>,
    pub amount_row: Seq<char>,
}

impl DeepView for Draft {
    type V = DraftView;

    open spec fn deep_view(&self) -> DraftView {
        DraftView {
            channel: self.channel,
            message: self.message,
            guild: self.guild,
            timestamp: self.timestamp,
            receiver: match self.receiver {
                Ok(name) => Ok(name@),
                Err(fault) => Err(fault),
            },
            amount_row: self.amount_row@,
        }
    }
}

/// The draft that a transfer announcement makes.
pub open spec fn draft_of(message: ChatMessage) -> DraftView {
    DraftView {
        channel: message.channel_id,
        message: message.id,
        guild: message.guild_id,
        timestamp: message.timestamp,
        receiver: receiver_of(message.embeds@[0].fields@),
        amount_row: message.embeds@[0].fields@[0].value@,
    }
}

/// What the plugin notes when it stops without being at fault.
#[derive(Clone, Copy, PartialEq, Eq, Structural, Debug)]
pub enum DankNote {
    /// Nobody of the receiver's name was found.
    UnknownReceiver,
}

/// A request of the plugin to the caches, the chat service or the store.
#[allow(inconsistent_fields)]
#[derive(Debug, PartialEq, Eq)]
pub enum DankCommand {
    /// Add `item_id` to the set of known items.
    RememberItem { item_id: String },
    /// Keep `name` as the name of `item_id`.
    NameItem { item_id: String, name: String },
    /// Record the trade.
    RecordTrade { trade: Trade },
    /// Find the author of `message` in the shared cache.
    FindAuthor { message: u64 },
    /// Find a user called `name` in the shared cache.
    FindUser { name: String },
    /// List the users mentioned in the last `limit` messages of `channel`
    /// before `before`, in order.
    FindMentions { channel: u64, before: u64, limit: u16 },
    /// Record the transfer.
    RecordTransfer { transfer: Transfer },
    /// Write `note` to the log.
    Note { note: DankNote },
}

/// A [`DankCommand`] as specifications see it.
#[allow(inconsistent_fields)]
pub enum DankCommandView {
    RememberItem { item_id: Seq<char> },
    NameItem { item_id: Seq<char>, name: Seq<char> },
    RecordTrade { trade: TradeView },
    FindAuthor { message: u64 },
    FindUser { name: Seq<char> },
    FindMentions { channel: u64, before: u64, limit: u16 },
    RecordTransfer { transfer: Transfer },
    Note { note: DankNote },
}

impl DeepView for DankCommand {
    type V = DankCommandView;

    open spec fn deep_view(&self) -> DankCommandView {
        match *self {
            DankCommand::RememberItem { item_id } => DankCommandView::RememberItem {
                item_id: item_id@,
            },
            DankCommand::NameItem { item_id, name } => DankCommandView::NameItem {
                item_id: item_id@,
                name: name@,
            },
            DankCommand::RecordTrade { trade } => DankCommandView::RecordTrade {
                trade: trade.deep_view(),
            },
            DankCommand::FindAuthor { message } => DankCommandView::FindAuthor { message },
            DankCommand::FindUser { name } => DankCommandView::FindUser { name: name@ },
            DankCommand::FindMentions { channel, before, limit } => DankCommandView::FindMentions {
                channel,
                before,
                limit,
            },
            DankCommand::RecordTransfer { transfer } => DankCommandView::RecordTransfer {
                transfer,
            },
            DankCommand::Note { note } => DankCommandView::Note { note },
        }
    }
}

/// What the caller reports back to the plugin.
#[derive(Debug, PartialEq, Eq)]
pub enum DankReply {
    /// The request failed.
    Failed,
    /// The write went through.
    Written,
    /// The author of the message, if the shared cache holds the message.
    Author(Option<u64>),
    /// The user of the name, if the shared cache holds one.
    User(Option<u64>),
    /// The users mentioned in the latest messages.
    Mentions(Vec<UserRef>),
}

/// Where the handling of one announcement stands.
#[allow(inconsistent_fields)]
#[derive(Debug, PartialEq, Eq)]
pub enum DankState {
    /// The item of a trade is being added to the known items.
    Remembering { trade: Trade },
    /// The item of a trade is being named.
    Naming { trade: Trade },
    /// The last write is under way; its result is the outcome.
    Recording,
    /// The sender of a transfer is being looked for.
    FindingAuthor { draft: Draft },
    /// The receiver of a transfer is being looked for in the shared cache.
    FindingUser { draft: Draft, sender: u64, name: String },
    /// The receiver of a transfer is being looked for in the latest messages.
    FindingMentions { draft: Draft, sender: u64, name: String },
    /// The announcement is handled.
    Done,
    /// A request failed; the plugin reports that failure.
    Failed,
    /// The announcement does not read; the plugin reports that.
    Rejected { error: DankError },
    /// The plugin found the announcement broken.
    Crashed { fault: DankFault },
}

/// The view of a command that may be absent.
pub open spec fn command_view(command: Option<DankCommand>) -> Option<DankCommandView> {
    match command {
        Some(c) => Some(c.deep_view()),
        None => None,
    }
}

/// The position of the first of `users` called `name`, or their number
/// where nobody is.
pub open spec fn first_named(users: Seq<UserRef>, name: Seq<char>, from: int) -> int
    decreases users.len() - from,
{
    if from < 0 || from >= users.len() {
        users.len() as int
    } else if users[from].name@ == name {
        from
    } else {
        first_named(users, name, from + 1)
    }
}

/// The end of a transfer whose sender and receiver are known: the amount is
/// read from its field, by the first group of the amount pattern, and the
/// transfer is recorded. The amount must read as a number and the
/// announcement must come from a guild.
pub open spec fn settled(
    amount_match: Option<Option<Seq<Option<Seq<char>>>>>,
    draft: DraftView,
    sender: u64,
    receiver: u64,
    post: DankState,
    command: Option<DankCommandView>,
) -> bool {
    match group_of(amount_match, 1) {
        Err(fault) => post == (DankState::Crashed { fault }) && command is None,
        Ok(text) => match parse_u64_spec(without(text, ',')) {
            None => post == (DankState::Rejected { error: DankError::BadNumber })
                && command is None,
            Some(amount) => match draft.guild {
                None => post == (DankState::Crashed { fault: DankFault::MissingGuild })
                    && command is None,
                Some(guild) => {
                    &&& post is Recording
                    &&& command == Some(
                        DankCommandView::RecordTransfer {
                            transfer: Transfer {
                                sender,
                                receiver,
                                amount,
                                timestamp: draft.timestamp,
                                channel: draft.channel,
                                guild,
                            },
                        },
                    )
                },
            },
        },
    }
}

/// Finds the first of `users` called `name`.
pub fn find_named(users: &Vec<UserRef>, name: &String) -> (found: Option<usize>)
    ensures
        match found {
            Some(i) => i < users@.len() && first_named(users@, name@, 0) == i,
            None => first_named(users@, name@, 0) == users@.len(),
        },
{
    let mut i: usize = 0;
    while i < users.len()
        invariant
            i <= users@.len(),
            first_named(users@, name@, 0) == first_named(users@, name@, i as int),
        decreases users@.len() - i,
    {
        if users[i].name == *name {
            assert(first_named(users@, name@, i as int) == i);
            return Some(i);
        }
        i += 1;
    }
    None
}

impl DankMemer {
    /// The users that the plugin knows by name.
    pub open spec fn names(&self) -> Map<Seq<char>, u64> {
        names_of(self.cache)
    }

    /// What [`DankMemer::on_event`] answers for a trade with these fields.
    pub open spec fn trade_begins(
        &self,
        fields: Seq<EmbedField>,
        state: DankState,
        command: Option<DankCommandView>,
    ) -> bool {
        match trade_fields(fields) {
            None => state is Done && command is None,
            Some(Err(fault)) => state == (DankState::Crashed { fault }) && command is None,
            Some(Ok((price, item))) => {
                match trade_of(
                    regex_captures(self.amount_expr@, fields[price].value@),
                    regex_captures(self.item_expr@, fields[item].value@),
                ) {
                    Err(fault) => state == (DankState::Crashed { fault }) && command is None,
                    Ok(Err(error)) => state == (DankState::Rejected { error }) && command is None,
                    Ok(Ok(trade)) => {
                        &&& state matches DankState::Remembering { trade: kept }
                        &&& kept.deep_view() == trade
                        &&& command == Some(
                            DankCommandView::RememberItem { item_id: trade.item_id },
                        )
                    },
                }
            },
        }
    }

    /// What [`DankMemer::on_event`] answers.
    pub open spec fn reacts(
        &self,
        event: Event,
        state: DankState,
        command: Option<DankCommandView>,
    ) -> bool {
        match event {
            Event::MessageCreate(message) => {
                match announcement_of(message) {
                    Err(fault) => state == (DankState::Crashed { fault }) && command is None,
                    Ok(Announcement::Other) => state is Done && command is None,
                    Ok(Announcement::Trade) => self.trade_begins(
                        message.embeds@[0].fields@,
                        state,
                        command,
                    ),
                    Ok(Announcement::Transfer) => {
                        match message.reference->0 {
                            None => {
                                &&& state == (DankState::Crashed {
                                    fault: DankFault::MissingReference,
                                })
                                &&& command is None
                            },
                            Some(answered) => {
                                &&& state matches DankState::FindingAuthor { draft }
                                &&& draft.deep_view() == draft_of(message)
                                &&& command == Some(
                                    DankCommandView::FindAuthor { message: answered },
                                )
                            },
                        }
                    },
                }
            },
            _ => state is Done && command is None,
        }
    }

    /// The transition relation of the plugin: holding the names `names`, in
    /// `pre`, on `reply`, it moves to `post`, sends `command`, if any, and
    /// holds the names `kept` afterwards.
    pub open spec fn proceeds(
        &self,
        names: Map<Seq<char>, u64>,
        pre: DankState,
        reply: DankReply,
        post: DankState,
        command: Option<DankCommandView>,
        kept: Map<Seq<char>, u64>,
    ) -> bool {
        let stays = post == pre && command is None && kept == names;
        match (pre, reply) {
            (DankState::Done, _) => stays,
            (DankState::Failed, _) => stays,
            (DankState::Rejected { .. }, _) => stays,
            (DankState::Crashed { .. }, _) => stays,
            (_, DankReply::Failed) => {
                &&& kept == names
                &&& command is None
                &&& if pre is FindingMentions {
                    post is Done
                } else {
                    post is Failed
                }
            },
            (DankState::Remembering { trade }, DankReply::Written) => {
                &&& kept == names
                &&& post matches DankState::Naming { trade: kept_trade }
                &&& kept_trade.deep_view() == trade.deep_view()
                &&& command == Some(
                    DankCommandView::NameItem { item_id: trade.item_id@, name: trade.item_name@ },
                )
            },
            (DankState::Naming { trade }, DankReply::Written) => {
                &&& kept == names
                &&& post is Recording
                &&& command == Some(DankCommandView::RecordTrade { trade: trade.deep_view() })
            },
            (DankState::Recording, DankReply::Written) => {
                &&& kept == names
                &&& post is Done
                &&& command is None
            },
            (DankState::FindingAuthor { draft }, DankReply::Author(author)) => {
                match author {
                    None => kept == names && post is Done && command is None,
                    Some(sender) => match draft.deep_view().receiver {
                        Err(fault) => {
                            &&& kept == names
                            &&& post == (DankState::Crashed { fault })
                            &&& command is None
                        },
                        Ok(name) => {
                            if names.contains_key(name) {
                                &&& kept == names
                                &&& settled(
                                    regex_captures(self.amount_expr@, draft.amount_row@),
                                    draft.deep_view(),
                                    sender,
                                    names[name],
                                    post,
                                    command,
                                )
                            } else {
                                &&& kept == names
                                &&& post matches DankState::FindingUser {
                                    draft: post_draft,
                                    sender: post_sender,
                                    name: post_name,
                                }
                                &&& post_draft.deep_view() == draft.deep_view()
                                &&& post_sender == sender
                                &&& post_name@ == name
                                &&& command == Some(DankCommandView::FindUser { name })
                            }
                        },
                    },
                }
            },
            (DankState::FindingUser { draft, sender, name }, DankReply::User(user)) => {
                match user {
                    Some(receiver) => {
                        &&& kept == names.insert(name@, receiver)
                        &&& settled(
                            regex_captures(self.amount_expr@, draft.amount_row@),
                            draft.deep_view(),
                            sender,
                            receiver,
                            post,
                            command,
                        )
                    },
                    None => {
                        &&& kept == names
                        &&& post matches DankState::FindingMentions {
                            draft: post_draft,
                            sender: post_sender,
                            name: post_name,
                        }
                        &&& post_draft.deep_view() == draft.deep_view()
                        &&& post_sender == sender
                        &&& post_name@ == name@
                        &&& command == Some(
                            DankCommandView::FindMentions {
                                channel: draft.channel,
                                before: draft.message,
                                limit: MENTION_SEARCH_LIMIT,
                            },
                        )
                    },
                }
            },
            (DankState::FindingMentions { draft, sender, name }, DankReply::Mentions(users)) => {
                let at = first_named(users@, name@, 0);
                if at < users@.len() {
                    &&& kept == names.insert(name@, users@[at].id)
                    &&& settled(
                        regex_captures(self.amount_expr@, draft.amount_row@),
                        draft.deep_view(),
                        sender,
                        users@[at].id,
                        post,
                        command,
                    )
                } else {
                    &&& kept == names
                    &&& post is Done
                    &&& command == Some(DankCommandView::Note { note: DankNote::UnknownReceiver })
                }
            },
            _ => stays,
        }
    }

    /// The reactive path: the first request that `event` calls for, if any.
    pub fn on_event(&self, event: &Event) -> (next: (DankState, Option<DankCommand>))
        ensures
            self.reacts(*event, next.0, command_view(next.1)),
    {
        match event {
            Event::MessageCreate(message) => {
                match classify(message) {
                    Err(fault) => (DankState::Crashed { fault }, None),
                    Ok(Announcement::Other) => (DankState::Done, None),
                    Ok(Announcement::Trade) => self.begin_trade(&message.embeds[0].fields),
                    Ok(Announcement::Transfer) => {
                        match message.reference {
                            None => (DankState::Done, None),
                            Some(None) => (
                                DankState::Crashed { fault: DankFault::MissingReference },
                                None,
                            ),
                            Some(Some(answered)) => {
                                let fields = &message.embeds[0].fields;
                                let draft = Draft {
                                    channel: message.channel_id,
                                    message: message.id,
                                    guild: message.guild_id,
                                    timestamp: message.timestamp,
                                    receiver: read_receiver(fields),
                                    amount_row: fields[0].value.clone(),
                                };
                                (
                                    DankState::FindingAuthor { draft },
                                    Some(DankCommand::FindAuthor { message: answered }),
                                )
                            },
                        }
                    },
                }
            },
            _ => (DankState::Done, None),
        }
    }

    fn begin_trade(&self, fields: &Vec<EmbedField>) -> (next: (DankState, Option<DankCommand>))
        ensures
            self.trade_begins(fields@, next.0, command_view(next.1)),
    {
        match pick_trade_fields(fields) {
            None => (DankState::Done, None),
            Some(Err(fault)) => (DankState::Crashed { fault }, None),
            Some(Ok((price, item))) => {
                let price_match = captures(self.amount_expr.as_str(), fields[price].value.as_str());
                let item_match = captures(self.item_expr.as_str(), fields[item].value.as_str());
                match read_trade(&price_match, &item_match) {
                    Err(fault) => (DankState::Crashed { fault }, None),
                    Ok(Err(error)) => (DankState::Rejected { error }, None),
                    Ok(Ok(trade)) => {
                        let item_id = trade.item_id.clone();
                        (
                            DankState::Remembering { trade },
                            Some(DankCommand::RememberItem { item_id }),
                        )
                    },
                }
            },
        }
    }

    fn settle(&self, draft: &Draft, sender: u64, receiver: u64) -> (next: (
        DankState,
        Option<DankCommand>,
    ))
        ensures
            settled(
                regex_captures(self.amount_expr@, draft.amount_row@),
                draft.deep_view(),
                sender,
                receiver,
                next.0,
                command_view(next.1),
            ),
    {
        let found = captures(self.amount_expr.as_str(), draft.amount_row.as_str());
        match take_group(&found, 1) {
            Err(fault) => (DankState::Crashed { fault }, None),
            Ok(text) => {
                match parse_u64(remove_char(text.as_str(), ',').as_str()) {
                    None => (DankState::Rejected { error: DankError::BadNumber }, None),
                    Some(amount) => {
                        match draft.guild {
                            None => (DankState::Crashed { fault: DankFault::MissingGuild }, None),
                            Some(guild) => (
                                DankState::Recording,
                                Some(
                                    DankCommand::RecordTransfer {
                                        transfer: Transfer {
                                            sender,
                                            receiver,
                                            amount,
                                            timestamp: draft.timestamp,
                                            channel: draft.channel,
                                            guild,
                                        },
                                    },
                                ),
                            ),
                        }
                    },
                }
            },
        }
    }

    /// The periodic path: the plugin keeps nothing that needs syncing.
    pub fn sync_db(&self) -> (commands: Vec<DankCommand>)
        ensures
            commands@.len() == 0,
    {
        Vec::new()
    }

    /// Advances the handling of an announcement by one reply.
    pub fn step(&mut self, state: DankState, reply: DankReply) -> (next: (
        DankState,
        Option<DankCommand>,
    ))
        ensures
            final(self).amount_expr == old(self).amount_expr,
            final(self).item_expr == old(self).item_expr,
            old(self).proceeds(
                old(self).names(),
                state,
                reply,
                next.0,
                command_view(next.1),
                final(self).names(),
            ),
    {
        match (state, reply) {
            (DankState::Done, _) => (DankState::Done, None),
            (DankState::Failed, _) => (DankState::Failed, None),
            (DankState::Rejected { error }, _) => (DankState::Rejected { error }, None),
            (DankState::Crashed { fault }, _) => (DankState::Crashed { fault }, None),
            (DankState::FindingMentions { .. }, DankReply::Failed) => (DankState::Done, None),
            (_, DankReply::Failed) => (DankState::Failed, None),
            (DankState::Remembering { trade }, DankReply::Written) => {
                let command = DankCommand::NameItem {
                    item_id: trade.item_id.clone(),
                    name: trade.item_name.clone(),
                };
                (DankState::Naming { trade }, Some(command))
            },
            (DankState::Naming { trade }, DankReply::Written) => (
                DankState::Recording,
                Some(DankCommand::RecordTrade { trade }),
            ),
            (DankState::Recording, DankReply::Written) => (DankState::Done, None),
            (DankState::FindingAuthor { draft }, DankReply::Author(author)) => {
                match author {
                    None => (DankState::Done, None),
                    Some(sender) => {
                        let name = match &draft.receiver {
                            Err(fault) => {
                                return (DankState::Crashed { fault: *fault }, None);
                            },
                            Ok(name) => name.clone(),
                        };
                        match user_named(&self.cache, &name) {
                            Some(receiver) => self.settle(&draft, sender, receiver),
                            None => {
                                let command = DankCommand::FindUser { name: name.clone() };
                                (DankState::FindingUser { draft, sender, name }, Some(command))
                            },
                        }
                    },
                }
            },
            (DankState::FindingUser { draft, sender, name }, DankReply::User(user)) => {
                match user {
                    Some(receiver) => {
                        put_name(&mut self.cache, name, receiver);
                        self.settle(&draft, sender, receiver)
                    },
                    None => {
                        let command = DankCommand::FindMentions {
                            channel: draft.channel,
                            before: draft.message,
                            limit: MENTION_SEARCH_LIMIT,
                        };
                        (DankState::FindingMentions { draft, sender, name }, Some(command))
                    },
                }
            },
            (DankState::FindingMentions { draft, sender, name }, DankReply::Mentions(users)) => {
                match find_named(&users, &name) {
                    Some(i) => {
                        let receiver = users[i].id;
                        put_name(&mut self.cache, name, receiver);
                        return self.settle(&draft, sender, receiver);
                    },
                    None => {},
                }
                (DankState::Done, Some(DankCommand::Note { note: DankNote::UnknownReceiver }))
            },
            (state, _) => (state, None),
        }
    }
}

} // verus!
