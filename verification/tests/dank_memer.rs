use gateway_worker::dank_memer::{
    classify, find_named, pick_trade_fields, read_receiver, read_trade, take_group, Announcement,
    DankCommand, DankError, DankFault, DankMemer, DankNote, DankReply, DankState, Draft, Trade,
    Transfer, BOT_USER, MENTION_SEARCH_LIMIT,
};
use gateway_worker::event::{ChatMessage, Embed, EmbedField, Event, UserRef};
use gateway_worker::plugin::Plugin;

fn field(name: &str, value: &str) -> EmbedField {
    EmbedField { name: name.to_string(), value: value.to_string() }
}

fn user(id: u64, name: &str) -> UserRef {
    UserRef { id, name: name.to_string(), bot: false }
}

fn from_bot(content: &str, embeds: Vec<Embed>, reference: Option<Option<u64>>) -> ChatMessage {
    ChatMessage {
        id: 900,
        channel_id: 800,
        guild_id: Some(700),
        author: UserRef { id: BOT_USER, name: "Dank Memer".to_string(), bot: true },
        content: content.to_string(),
        timestamp: 1_700_000_000,
        embeds,
        mentions: Vec::new(),
        reference,
    }
}

fn transfer_fields(amount: &str, receiver: &str) -> Vec<EmbedField> {
    vec![field("Shared", amount), field("Your Pocket", "x"), field(receiver, "y")]
}

fn transfer_message() -> ChatMessage {
    let fields = transfer_fields("`\u{23e3} 1,500` (+ \u{23e3} 15 tax)", "alice's Pocket");
    from_bot("", vec![Embed { title: None, fields }], Some(Some(444)))
}

fn trade_message(fields: Vec<EmbedField>) -> ChatMessage {
    from_bot("", vec![Embed { title: Some("Successful Trade!".to_string()), fields }], None)
}

const PRICE: &str = "`\u{23e3} 12,000` (+ \u{23e3} 120 tax)";
const ITEM: &str = "<:Reply:870665583593660476>**3x** <:Trophy:123456> **Gold Trophy**";

fn draft() -> Draft {
    Draft {
        channel: 800,
        message: 900,
        guild: Some(700),
        timestamp: 1_700_000_000,
        receiver: Ok("alice".to_string()),
        amount_row: "`\u{23e3} 1,500` (+ \u{23e3} 15 tax)".to_string(),
    }
}

fn recorded(receiver: u64) -> Option<DankCommand> {
    Some(DankCommand::RecordTransfer {
        transfer: Transfer {
            sender: 111,
            receiver,
            amount: 1500,
            timestamp: 1_700_000_000,
            channel: 800,
            guild: 700,
        },
    })
}

fn groups(list: &[Option<&str>]) -> Option<Option<Vec<Option<String>>>> {
    Some(Some(list.iter().map(|g| g.map(|s| s.to_string())).collect()))
}

#[test]
fn dank_memer_the_plugin_is_called_dank_memer() {
    let plugin = DankMemer::default();
    assert_eq!(plugin.name(), "dank_memer");
    assert_eq!(plugin.description(), "Tracking dank memer data");
    assert_eq!(plugin.amount_expr, r"^`⏣ ([\d,]+)` \(\+ ⏣ ([\d,]+) tax\)$");
    assert_eq!(
        plugin.item_expr,
        r"^<:Reply:870665583593660476>\*\*([\d,]*)x\*\* <:(\w*):(?:\d*)> \*\*([\w ]*)\*\*$"
    );
    assert_eq!(plugin.cache.len(), 0);
    assert!(plugin.sync_db().is_empty());
    assert_eq!(BOT_USER, 270904126974590976);
}

#[test]
fn dank_memer_announcements_are_told_apart() {
    assert_eq!(classify(&transfer_message()), Ok(Announcement::Transfer));
    assert_eq!(
        classify(&trade_message(vec![field("a", PRICE), field("b", ITEM)])),
        Ok(Announcement::Trade)
    );

    let mut not_the_bot = transfer_message();
    not_the_bot.author.id = 1;
    assert_eq!(classify(&not_the_bot), Ok(Announcement::Other));
    let mut with_text = transfer_message();
    with_text.content = "hi".to_string();
    assert_eq!(classify(&with_text), Ok(Announcement::Other));
    let mut no_answer = transfer_message();
    no_answer.reference = None;
    assert_eq!(classify(&no_answer), Ok(Announcement::Other));
    let mut other_fields = transfer_message();
    other_fields.embeds[0].fields[1].name = "My Pocket".to_string();
    assert_eq!(classify(&other_fields), Ok(Announcement::Other));
    let mut titled = transfer_message();
    titled.embeds[0].fields[0].name = "Given".to_string();
    titled.embeds[0].title = Some("Successful Trade!".to_string());
    assert_eq!(classify(&titled), Ok(Announcement::Trade));
    assert_eq!(classify(&from_bot("", Vec::new(), Some(Some(1)))), Ok(Announcement::Other));
    let mut no_fields = transfer_message();
    no_fields.embeds[0].fields.clear();
    assert_eq!(classify(&no_fields), Ok(Announcement::Other));
}

#[test]
fn dank_memer_a_transfer_with_one_field_is_a_fault() {
    let mut short = transfer_message();
    short.embeds[0].fields.truncate(1);
    assert_eq!(classify(&short), Err(DankFault::MissingField));
}

#[test]
fn dank_memer_the_price_field_is_the_one_that_names_the_currency() {
    assert_eq!(pick_trade_fields(&vec![field("a", PRICE), field("b", ITEM)]), Some(Ok((0, 1))));
    assert_eq!(pick_trade_fields(&vec![field("a", ITEM), field("b", PRICE)]), Some(Ok((1, 0))));
    assert_eq!(
        pick_trade_fields(&vec![field("a", ITEM), field("b", "x"), field("c", PRICE)]),
        Some(Ok((1, 0)))
    );
    assert_eq!(pick_trade_fields(&vec![field("a", PRICE), field("b", PRICE)]), None);
    assert_eq!(pick_trade_fields(&vec![field("a", ITEM), field("b", ITEM)]), None);
    assert_eq!(pick_trade_fields(&Vec::new()), None);
    assert_eq!(pick_trade_fields(&vec![field("a", PRICE)]), Some(Err(DankFault::MissingField)));
}

#[test]
fn dank_memer_groups_are_taken_from_a_match() {
    let found = groups(&[Some("whole"), Some("one"), None]);
    assert_eq!(take_group(&found, 0), Ok("whole".to_string()));
    assert_eq!(take_group(&found, 1), Ok("one".to_string()));
    assert_eq!(take_group(&found, 2), Err(DankFault::MissingGroup));
    assert_eq!(take_group(&found, 3), Err(DankFault::MissingGroup));
    assert_eq!(take_group(&Some(None), 0), Err(DankFault::NoMatch));
    assert_eq!(take_group(&None, 0), Err(DankFault::BadPattern));
}

#[test]
fn dank_memer_a_trade_is_read_from_its_matches() {
    let price = groups(&[Some("w"), Some("12,000"), Some("120")]);
    let item = groups(&[Some("w"), Some("1,003"), Some("Trophy"), Some("Gold Trophy")]);
    assert_eq!(
        read_trade(&price, &item),
        Ok(Ok(Trade {
            amount: 1003,
            price: 12000,
            item_id: "Trophy".to_string(),
            item_name: "Gold Trophy".to_string(),
        }))
    );
    let no_amount = groups(&[Some("w"), Some(""), Some("Trophy"), Some("Gold Trophy")]);
    assert_eq!(read_trade(&price, &no_amount), Ok(Err(DankError::BadNumber)));
    let huge = groups(&[Some("w"), Some("99,999,999,999,999,999,999"), Some("1")]);
    assert_eq!(read_trade(&huge, &item), Ok(Err(DankError::BadNumber)));
    assert_eq!(read_trade(&Some(None), &no_amount), Err(DankFault::NoMatch));
    assert_eq!(read_trade(&price, &Some(None)), Err(DankFault::NoMatch));
    assert_eq!(read_trade(&None, &item), Err(DankFault::BadPattern));
    let short = groups(&[Some("w"), Some("1"), Some("Trophy")]);
    assert_eq!(read_trade(&price, &short), Err(DankFault::MissingGroup));
}

#[test]
fn dank_memer_a_trade_is_remembered_named_and_recorded() {
    let mut plugin = DankMemer::default();
    let event = Event::MessageCreate(trade_message(vec![field("a", ITEM), field("b", PRICE)]));
    let (state, command) = plugin.on_event(&event);
    let trade = Trade {
        amount: 3,
        price: 12000,
        item_id: "Trophy".to_string(),
        item_name: "Gold Trophy".to_string(),
    };
    assert_eq!(command, Some(DankCommand::RememberItem { item_id: "Trophy".to_string() }));
    let (state, command) = plugin.step(state, DankReply::Written);
    assert_eq!(
        command,
        Some(DankCommand::NameItem {
            item_id: "Trophy".to_string(),
            name: "Gold Trophy".to_string(),
        })
    );
    let (state, command) = plugin.step(state, DankReply::Written);
    assert_eq!(state, DankState::Recording);
    assert_eq!(command, Some(DankCommand::RecordTrade { trade }));
    assert_eq!(plugin.step(state, DankReply::Written), (DankState::Done, None));
}

#[test]
fn dank_memer_a_trade_that_does_not_read_is_given_up() {
    let plugin = DankMemer::default();
    let unreadable = trade_message(vec![field("a", "\u{23e3} lots"), field("b", ITEM)]);
    assert_eq!(
        plugin.on_event(&Event::MessageCreate(unreadable)),
        (DankState::Crashed { fault: DankFault::NoMatch }, None)
    );
    let no_count = "<:Reply:870665583593660476>**x** <:Trophy:123456> **Gold Trophy**";
    let uncounted = trade_message(vec![field("a", PRICE), field("b", no_count)]);
    assert_eq!(
        plugin.on_event(&Event::MessageCreate(uncounted)),
        (DankState::Rejected { error: DankError::BadNumber }, None)
    );
    let unpriced = trade_message(vec![field("a", "one"), field("b", "two")]);
    assert_eq!(plugin.on_event(&Event::MessageCreate(unpriced)), (DankState::Done, None));
    let lonely = trade_message(vec![field("a", PRICE)]);
    assert_eq!(
        plugin.on_event(&Event::MessageCreate(lonely)),
        (DankState::Crashed { fault: DankFault::MissingField }, None)
    );
    let mut broken = DankMemer::default();
    broken.amount_expr = "(".to_string();
    let fine = trade_message(vec![field("a", PRICE), field("b", ITEM)]);
    assert_eq!(
        broken.on_event(&Event::MessageCreate(fine)),
        (DankState::Crashed { fault: DankFault::BadPattern }, None)
    );
}

#[test]
fn dank_memer_a_failed_write_ends_the_trade_with_that_failure() {
    let mut plugin = DankMemer::default();
    let trade = Trade { amount: 1, price: 2, item_id: "a".to_string(), item_name: "b".to_string() };
    assert_eq!(
        plugin.step(DankState::Remembering { trade }, DankReply::Failed),
        (DankState::Failed, None)
    );
    assert_eq!(plugin.step(DankState::Recording, DankReply::Failed), (DankState::Failed, None));
    assert_eq!(plugin.step(DankState::Failed, DankReply::Written), (DankState::Failed, None));
}

#[test]
fn dank_memer_the_receiver_is_the_third_field_without_its_ending() {
    assert_eq!(
        read_receiver(&transfer_fields("x", "alice's Pocket")),
        Ok("alice".to_string())
    );
    assert_eq!(read_receiver(&transfer_fields("x", "123456789")), Ok(String::new()));
    assert_eq!(read_receiver(&transfer_fields("x", "12345678")), Err(DankFault::BadName));
    assert_eq!(read_receiver(&transfer_fields("x", "")), Err(DankFault::BadName));
    assert_eq!(
        read_receiver(&vec![field("Shared", "x"), field("Your Pocket", "y")]),
        Err(DankFault::MissingField)
    );
}

#[test]
fn dank_memer_the_ending_of_the_receiver_is_counted_in_bytes() {
    // Nine bytes are cut, which are fewer than nine characters here.
    assert_eq!(
        read_receiver(&transfer_fields("x", "zo\u{00e9}\u{00e9}\u{00e9}\u{00e9}1")),
        Ok("zo".to_string())
    );
    assert_eq!(
        read_receiver(&transfer_fields("x", "z\u{00e9}\u{00e9}\u{00e9}\u{00e9}\u{00e9}")),
        Err(DankFault::BadName)
    );
    for name in ["bob's Pocket", "\u{00e9}t\u{00e9}'s Pocket", "\u{23e3}12345678", "a\u{23e3}\u{23e3}\u{23e3}"] {
        let cut = name.len() - 9;
        let expected = if name.is_char_boundary(cut) {
            Ok(name[..cut].to_string())
        } else {
            Err(DankFault::BadName)
        };
        assert_eq!(read_receiver(&transfer_fields("x", name)), expected, "name {:?}", name);
    }
}

#[test]
fn dank_memer_a_transfer_starts_with_the_search_for_its_sender() {
    let plugin = DankMemer::default();
    let (state, command) = plugin.on_event(&Event::MessageCreate(transfer_message()));
    assert_eq!(state, DankState::FindingAuthor { draft: draft() });
    assert_eq!(command, Some(DankCommand::FindAuthor { message: 444 }));

    let mut unnamed = transfer_message();
    unnamed.reference = Some(None);
    assert_eq!(
        plugin.on_event(&Event::MessageCreate(unnamed)),
        (DankState::Crashed { fault: DankFault::MissingReference }, None)
    );
}

#[test]
fn dank_memer_a_transfer_without_known_sender_is_passed_over() {
    let mut plugin = DankMemer::default();
    let state = DankState::FindingAuthor { draft: draft() };
    assert_eq!(plugin.step(state, DankReply::Author(None)), (DankState::Done, None));
    let mut bad = draft();
    bad.receiver = Err(DankFault::BadName);
    let state = DankState::FindingAuthor { draft: bad };
    assert_eq!(plugin.step(state, DankReply::Author(None)), (DankState::Done, None));
}

#[test]
fn dank_memer_a_receiver_known_by_name_is_not_searched_for() {
    let mut plugin = DankMemer::default();
    plugin.cache.insert("alice".to_string(), 222);
    let state = DankState::FindingAuthor { draft: draft() };
    let (state, command) = plugin.step(state, DankReply::Author(Some(111)));
    assert_eq!(state, DankState::Recording);
    assert_eq!(command, recorded(222));
    assert_eq!(plugin.step(state, DankReply::Written), (DankState::Done, None));
}

#[test]
fn dank_memer_a_receiver_is_searched_in_the_cache_and_remembered() {
    let mut plugin = DankMemer::default();
    let state = DankState::FindingAuthor { draft: draft() };
    let (state, command) = plugin.step(state, DankReply::Author(Some(111)));
    assert_eq!(
        state,
        DankState::FindingUser { draft: draft(), sender: 111, name: "alice".to_string() }
    );
    assert_eq!(command, Some(DankCommand::FindUser { name: "alice".to_string() }));
    let (state, command) = plugin.step(state, DankReply::User(Some(333)));
    assert_eq!(state, DankState::Recording);
    assert_eq!(command, recorded(333));
    assert_eq!(plugin.cache.get("alice").map(|id| *id), Some(333));
}

#[test]
fn dank_memer_a_receiver_is_searched_among_the_latest_mentions() {
    let mut plugin = DankMemer::default();
    let state = DankState::FindingUser { draft: draft(), sender: 111, name: "alice".to_string() };
    let (state, command) = plugin.step(state, DankReply::User(None));
    assert_eq!(MENTION_SEARCH_LIMIT, 10);
    assert_eq!(
        command,
        Some(DankCommand::FindMentions { channel: 800, before: 900, limit: 10 })
    );
    let mentioned = vec![user(1, "bob"), user(2, "alice"), user(3, "alice")];
    let (state, command) = plugin.step(state, DankReply::Mentions(mentioned));
    assert_eq!(state, DankState::Recording);
    assert_eq!(command, recorded(2));
    assert_eq!(plugin.cache.get("alice").map(|id| *id), Some(2));
}

#[test]
fn dank_memer_a_receiver_nobody_knows_is_noted() {
    let mut plugin = DankMemer::default();
    let state =
        DankState::FindingMentions { draft: draft(), sender: 111, name: "alice".to_string() };
    let (state, command) = plugin.step(state, DankReply::Mentions(vec![user(1, "bob")]));
    assert_eq!(state, DankState::Done);
    assert_eq!(command, Some(DankCommand::Note { note: DankNote::UnknownReceiver }));
    assert_eq!(plugin.cache.len(), 0);

    let state =
        DankState::FindingMentions { draft: draft(), sender: 111, name: "alice".to_string() };
    assert_eq!(plugin.step(state, DankReply::Failed), (DankState::Done, None));
    let state = DankState::FindingUser { draft: draft(), sender: 111, name: "alice".to_string() };
    assert_eq!(plugin.step(state, DankReply::Failed), (DankState::Failed, None));
}

#[test]
fn dank_memer_a_transfer_that_does_not_read_is_given_up() {
    let mut plugin = DankMemer::default();
    let mut bad_name = draft();
    bad_name.receiver = Err(DankFault::MissingField);
    assert_eq!(
        plugin.step(DankState::FindingAuthor { draft: bad_name }, DankReply::Author(Some(1))),
        (DankState::Crashed { fault: DankFault::MissingField }, None)
    );

    let mut no_amount = draft();
    no_amount.amount_row = "a fortune".to_string();
    let state = DankState::FindingUser { draft: no_amount, sender: 1, name: "alice".to_string() };
    assert_eq!(
        plugin.step(state, DankReply::User(Some(2))),
        (DankState::Crashed { fault: DankFault::NoMatch }, None)
    );

    let mut too_much = draft();
    too_much.amount_row = "`\u{23e3} 99,999,999,999,999,999,999` (+ \u{23e3} 1 tax)".to_string();
    let state = DankState::FindingUser { draft: too_much, sender: 1, name: "alice".to_string() };
    assert_eq!(
        plugin.step(state, DankReply::User(Some(2))),
        (DankState::Rejected { error: DankError::BadNumber }, None)
    );

    let mut nowhere = draft();
    nowhere.guild = None;
    let state = DankState::FindingUser { draft: nowhere, sender: 1, name: "alice".to_string() };
    assert_eq!(
        plugin.step(state, DankReply::User(Some(2))),
        (DankState::Crashed { fault: DankFault::MissingGuild }, None)
    );
}

#[test]
fn dank_memer_other_messages_and_events_are_passed_over() {
    let plugin = DankMemer::default();
    assert_eq!(plugin.on_event(&Event::GuildCreate { id: 1 }), (DankState::Done, None));
    assert_eq!(
        plugin.on_event(&Event::MessageCreate(from_bot("hello", Vec::new(), None))),
        (DankState::Done, None)
    );
}

#[test]
fn dank_memer_the_first_user_of_a_name_is_found() {
    let users = vec![user(1, "bob"), user(2, "alice"), user(3, "alice")];
    assert_eq!(find_named(&users, &"alice".to_string()), Some(1));
    assert_eq!(find_named(&users, &"bob".to_string()), Some(0));
    assert_eq!(find_named(&users, &"Bob".to_string()), None);
    assert_eq!(find_named(&Vec::new(), &"bob".to_string()), None);
}
