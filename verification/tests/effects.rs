use gateway_worker::effects::{
    make_channel_mention, make_jump_url, push_user_mention, Effect, Fault, Problem,
};

#[test]
fn effects_mentions_and_links_are_written_out() {
    let mut out = String::from("hi ");
    push_user_mention(&mut out, 270904126974590976);
    assert_eq!(out, "hi <@270904126974590976>");
    assert_eq!(make_channel_mention(42), "<#42>");
    assert_eq!(make_jump_url(1, 22, 333), "https://discord.com/channels/1/22/333");
    assert_eq!(
        make_jump_url(u64::MAX, 0, 7),
        "https://discord.com/channels/18446744073709551615/0/7"
    );
}

#[test]
fn effects_requests_are_answered_and_notices_are_not() {
    let answered = vec![
        Effect::Sleep { seconds: 1 },
        Effect::FetchMembers { key: "k".to_string() },
        Effect::Expire { key: "k".to_string(), seconds: 1 },
        Effect::DeleteKey { key: "k".to_string() },
        Effect::EditMessage {
            channel: 1,
            message: 2,
            title: "t".to_string(),
            description: "d".to_string(),
        },
        Effect::Post { channel: 1, content: "c".to_string() },
        Effect::DeleteMessages { channel: 1, messages: vec![2, 3] },
        Effect::Render {
            template: "t".to_string(),
            title: "a".to_string(),
            host: "b".to_string(),
            channel: "c".to_string(),
            link: "d".to_string(),
        },
    ];
    for effect in &answered {
        assert!(effect.expects_reply(), "{:?}", effect);
    }
    let unanswered = vec![
        Effect::Announce {
            channel: 1,
            content: "c".to_string(),
            jump_url: "u".to_string(),
            mentions: vec![5],
        },
        Effect::DeleteMessage { channel: 1, message: 2 },
        Effect::Log { problem: Problem::PostFailed },
        Effect::Abort { fault: Fault::RenderFailed },
    ];
    for effect in &unanswered {
        assert!(!effect.expects_reply(), "{:?}", effect);
    }
}
