use wechat_cli::context::{
    body_from_item_list, context_file, conversation_peer_id, message_context,
    resolve_context_token, watch_step, ConversationContext,
};
use wechat_cli::wechat::models::{GetUpdatesResponse, InboundMessage, InboundMessageItem, TextItem};

fn item(item_type: u64) -> InboundMessageItem {
    InboundMessageItem {
        item_type,
        body: None,
        text_item: None,
        voice_transcription_body: None,
        ref_item_list: None,
    }
}

#[test]
fn peer_is_the_other_party() {
    assert_eq!(conversation_peer_id("bot", "alice", "bot"), "alice");
    assert_eq!(conversation_peer_id("bot", "bot", "alice"), "alice");
    assert_eq!(conversation_peer_id("bot", "", "bot"), "bot");
    assert_eq!(conversation_peer_id("bot", "x", "y"), "y");
}

#[test]
fn body_joins_item_texts_and_quotes() {
    let items = vec![
        InboundMessageItem { body: Some("plain".to_string()), ..item(0) },
        InboundMessageItem { text_item: Some(TextItem { text: "hello".to_string() }), ..item(1) },
        item(2),
        InboundMessageItem { voice_transcription_body: Some("spoken".to_string()), ..item(5) },
        InboundMessageItem {
            ref_item_list: Some(vec![
                InboundMessageItem { text_item: Some(TextItem { text: "q1".to_string() }), ..item(1) },
                InboundMessageItem { body: Some("q2".to_string()), ..item(0) },
            ]),
            ..item(7)
        },
        InboundMessageItem { ref_item_list: Some(vec![item(2)]), ..item(7) },
    ];
    assert_eq!(body_from_item_list(&items), "plain\nhello\nspoken\n> q1\nq2");
    assert_eq!(body_from_item_list(&[]), "");
}

#[test]
fn context_of_a_message() {
    let message = InboundMessage {
        from_user_id: "alice".to_string(),
        to_user_id: "bot".to_string(),
        context_token: "ctx".to_string(),
        item_list: vec![InboundMessageItem { text_item: Some(TextItem { text: "hi".to_string() }), ..item(1) }, item(3)],
    };
    let c = message_context("bot", &message, "2025").unwrap();
    assert_eq!(c.target_user_id, "alice");
    assert_eq!(c.context_token, "ctx");
    assert_eq!(c.last_text.as_deref(), Some("hi"));
    assert_eq!(c.item_types, vec![1, 3]);
    let no_token = InboundMessage { context_token: String::new(), ..message };
    assert!(message_context("bot", &no_token, "2025").is_none());
}

#[test]
fn context_token_resolution_and_location() {
    let cached = ConversationContext {
        target_user_id: "a".to_string(),
        context_token: "cached".to_string(),
        updated_at: "2025".to_string(),
        last_text: None,
        item_types: vec![],
    };
    assert_eq!(resolve_context_token("u", Some("given"), Some(&cached)).unwrap(), "given");
    assert_eq!(resolve_context_token("u", None, Some(&cached)).unwrap(), "cached");
    assert!(resolve_context_token("u", None, None).unwrap_err().message().starts_with("no cached context_token"));
    assert_eq!(context_file("/home/me", "u@im.wechat"), "/home/me/.cache/wechat-cli/contexts/u@im.wechat.json");
}

fn inbound(from: &str, to: &str, token: &str) -> InboundMessage {
    InboundMessage {
        from_user_id: from.to_string(),
        to_user_id: to.to_string(),
        context_token: token.to_string(),
        item_list: vec![InboundMessageItem { text_item: Some(TextItem { text: "hi".to_string() }), ..item(1) }],
    }
}

#[test]
fn watch_step_keeps_the_buffer_and_finds_the_first_context() {
    let resp = GetUpdatesResponse {
        get_updates_buf: Some("next".to_string()),
        msg_list: None,
        msgs: Some(vec![inbound("alice", "bot", ""), inbound("", "", "t0"), inbound("alice", "bot", "t1"), inbound("bob", "bot", "t2")]),
    };
    let (buf, context) = watch_step(Some("old"), "bot", &resp, "2025-01-01T00:00:00Z");
    assert_eq!(buf.as_deref(), Some("next"));
    let context = context.unwrap();
    assert_eq!(context.target_user_id, "alice");
    assert_eq!(context.context_token, "t1");
    assert_eq!(context.last_text.as_deref(), Some("hi"));
    assert_eq!(context.item_types, vec![1]);
    assert_eq!(context.updated_at, "2025-01-01T00:00:00Z");

    let quiet = GetUpdatesResponse { get_updates_buf: None, msg_list: Some(vec![]), msgs: None };
    let (buf, context) = watch_step(Some("old"), "bot", &quiet, "now");
    assert_eq!(buf.as_deref(), Some("old"));
    assert!(context.is_none());
}

#[test]
fn context_file_follows_path_join_for_absolute_ids() {
    let expected = std::path::Path::new("/h").join(".cache").join("wechat-cli").join("contexts").join("/x.json");
    assert_eq!(context_file("/h", "/x"), expected.to_str().unwrap());
    assert_eq!(context_file("/h", "/x"), "/x.json");
    assert_eq!(context_file("", "u"), ".cache/wechat-cli/contexts/u.json");
}
