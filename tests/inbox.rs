use agent_twitter_client::json::Json;
use agent_twitter_client::messages::{
    extract_media_urls, group_messages_by_conversation, inbox_url, parse_direct_message_conversations,
    parse_timeline_status, parse_user, participant_screen_name, ParseError,
};

fn s(v: &str) -> Json {
    Json::Str(v.to_string())
}

fn obj(members: Vec<(&str, Json)>) -> Json {
    Json::Object(members.into_iter().map(|(k, v)| (k.to_string(), v)).collect())
}

fn members(members: Vec<(&str, Json)>) -> Vec<(String, Json)> {
    members.into_iter().map(|(k, v)| (k.to_string(), v)).collect()
}

fn user(id: &str, screen_name: &str) -> Json {
    obj(vec![
        ("id_str", s(id)),
        ("screen_name", s(screen_name)),
        ("name", s("Name")),
        ("profile_image_url_https", s("x")),
    ])
}

fn message_entry(conv: &str, id: &str, sender: &str, recipient: &str) -> Json {
    obj(vec![(
        "message",
        obj(vec![
            ("conversation_id", s(conv)),
            (
                "message_data",
                obj(vec![
                    ("id", s(id)),
                    ("text", s("hi")),
                    ("sender_id", s(sender)),
                    ("recipient_id", s(recipient)),
                    ("time", s("123")),
                ]),
            ),
        ]),
    )])
}

fn conversation(participants: &[&str]) -> Json {
    obj(vec![(
        "participants",
        Json::Array(participants.iter().map(|p| obj(vec![("user_id", s(p))])).collect()),
    )])
}

fn inbox(state: Json) -> Json {
    obj(vec![("inbox_initial_state", state)])
}

#[test]
fn single_conversation_scenario() {
    let doc = inbox(obj(vec![
        ("conversations", obj(vec![("c1", conversation(&["u1"]))])),
        ("entries", Json::Array(vec![message_entry("c1", "m1", "u1", "u2")])),
        (
            "users",
            obj(vec![(
                "u1",
                obj(vec![
                    ("id_str", s("u1")),
                    ("screen_name", s("alice")),
                    ("name", s("Alice")),
                    ("profile_image_url_https", s("x")),
                ]),
            )]),
        ),
    ]));
    let resp = match parse_direct_message_conversations(&doc, "me") {
        Ok(r) => r,
        Err(_) => panic!("reconstruction failed"),
    };
    assert_eq!(resp.user_id, "me");
    assert_eq!(resp.conversations.len(), 1);
    let conv = &resp.conversations[0];
    assert_eq!(conv.conversation_id, "c1");
    assert_eq!(conv.messages.len(), 1);
    let m = &conv.messages[0];
    assert_eq!(m.id, "m1");
    assert_eq!(m.text, "hi");
    assert_eq!(m.sender_id, "u1");
    assert_eq!(m.recipient_id, "u2");
    assert_eq!(m.created_at, "123");
    assert_eq!(m.sender_screen_name.as_deref(), Some("alice"));
    assert_eq!(m.recipient_screen_name, None);
    assert_eq!(m.media_urls, None);
    assert_eq!(conv.participants.len(), 1);
    assert_eq!(conv.participants[0].id, "u1");
    assert_eq!(conv.participants[0].screen_name, "alice");
    assert_eq!(resp.users.len(), 1);
    assert_eq!(resp.users[0].screen_name, "alice");
    assert_eq!(resp.users[0].name, "Alice");
}

#[test]
fn missing_root_is_structural_error() {
    let doc = obj(vec![("something_else", obj(vec![]))]);
    assert!(matches!(
        parse_direct_message_conversations(&doc, "me"),
        Err(ParseError::MissingInboxState)
    ));
    assert!(matches!(
        parse_direct_message_conversations(&s("not an object"), "me"),
        Err(ParseError::MissingInboxState)
    ));
}

#[test]
fn malformed_subcollections_degrade_to_empty() {
    let doc = inbox(obj(vec![
        ("conversations", s("oops")),
        ("entries", obj(vec![])),
        ("users", Json::Array(vec![])),
        ("cursor", Json::Int(5)),
    ]));
    let resp = match parse_direct_message_conversations(&doc, "me") {
        Ok(r) => r,
        Err(_) => panic!("reconstruction failed"),
    };
    assert!(resp.conversations.is_empty());
    assert!(resp.users.is_empty());
    assert_eq!(resp.cursor, None);
    assert!(resp.inbox_timelines.is_none());

    let null_root = inbox(Json::Null);
    let resp = match parse_direct_message_conversations(&null_root, "me") {
        Ok(r) => r,
        Err(_) => panic!("reconstruction failed"),
    };
    assert!(resp.conversations.is_empty());
    assert_eq!(resp.last_seen_event_id, None);
}

#[test]
fn cursor_and_last_seen_ids_are_copied() {
    let doc = inbox(obj(vec![
        ("cursor", s("cur")),
        ("last_seen_event_id", s("1")),
        ("trusted_last_seen_event_id", s("2")),
        ("untrusted_last_seen_event_id", s("3")),
    ]));
    let resp = match parse_direct_message_conversations(&doc, "me") {
        Ok(r) => r,
        Err(_) => panic!("reconstruction failed"),
    };
    assert_eq!(resp.cursor.as_deref(), Some("cur"));
    assert_eq!(resp.last_seen_event_id.as_deref(), Some("1"));
    assert_eq!(resp.trusted_last_seen_event_id.as_deref(), Some("2"));
    assert_eq!(resp.untrusted_last_seen_event_id.as_deref(), Some("3"));
}

#[test]
fn orphan_messages_are_dropped() {
    let doc = inbox(obj(vec![
        ("conversations", obj(vec![("c1", conversation(&[]))])),
        (
            "entries",
            Json::Array(vec![
                message_entry("c2", "m9", "u1", "u2"),
                message_entry("c1", "m1", "u1", "u2"),
            ]),
        ),
    ]));
    let resp = match parse_direct_message_conversations(&doc, "me") {
        Ok(r) => r,
        Err(_) => panic!("reconstruction failed"),
    };
    assert_eq!(resp.conversations.len(), 1);
    assert_eq!(resp.conversations[0].conversation_id, "c1");
    assert_eq!(resp.conversations[0].messages.len(), 1);
    assert_eq!(resp.conversations[0].messages[0].id, "m1");
}

#[test]
fn one_conversation_per_key_with_whole_bucket() {
    let doc = inbox(obj(vec![
        ("conversations", obj(vec![("a", conversation(&["u1", "u2"])), ("b", conversation(&[]))])),
        (
            "entries",
            Json::Array(vec![
                message_entry("b", "1", "u1", "u2"),
                message_entry("a", "2", "u1", "u2"),
                obj(vec![("no_message", Json::Null)]),
                message_entry("b", "3", "u2", "u1"),
                message_entry("a", "4", "u2", "u1"),
            ]),
        ),
    ]));
    let resp = match parse_direct_message_conversations(&doc, "me") {
        Ok(r) => r,
        Err(_) => panic!("reconstruction failed"),
    };
    assert_eq!(resp.conversations.len(), 2);
    let a = &resp.conversations[0];
    let b = &resp.conversations[1];
    assert_eq!(a.conversation_id, "a");
    assert_eq!(b.conversation_id, "b");
    let ids = |c: &agent_twitter_client::messages::DirectMessageConversation| {
        c.messages.iter().map(|m| m.id.clone()).collect::<Vec<_>>()
    };
    assert_eq!(ids(a), vec!["2", "4"]);
    assert_eq!(ids(b), vec!["1", "3"]);
    assert_eq!(a.participants.len(), 2);
    assert!(b.participants.is_empty());
}

#[test]
fn conversation_without_messages_is_empty() {
    let doc = inbox(obj(vec![("conversations", obj(vec![("lonely", conversation(&["u9"]))]))]));
    let resp = match parse_direct_message_conversations(&doc, "me") {
        Ok(r) => r,
        Err(_) => panic!("reconstruction failed"),
    };
    assert_eq!(resp.conversations.len(), 1);
    assert!(resp.conversations[0].messages.is_empty());
    assert_eq!(resp.conversations[0].participants[0].screen_name, "u9");
}

#[test]
fn message_missing_required_field_is_skipped() {
    let incomplete = obj(vec![(
        "message",
        obj(vec![
            ("conversation_id", s("c1")),
            ("message_data", obj(vec![("id", s("bad")), ("text", s("no sender"))])),
        ]),
    )]);
    let doc = inbox(obj(vec![
        ("conversations", obj(vec![("c1", conversation(&[]))])),
        ("entries", Json::Array(vec![incomplete, message_entry("c1", "good", "u1", "u2")])),
    ]));
    let resp = match parse_direct_message_conversations(&doc, "me") {
        Ok(r) => r,
        Err(_) => panic!("reconstruction failed"),
    };
    assert_eq!(resp.conversations[0].messages.len(), 1);
    assert_eq!(resp.conversations[0].messages[0].id, "good");
}

#[test]
fn screen_name_resolution_falls_back_to_id() {
    let users = members(vec![
        ("u1", user("u1", "alice")),
        ("u2", obj(vec![("id_str", s("u2"))])),
    ]);
    assert_eq!(participant_screen_name(&users, "u1"), "alice");
    assert_eq!(participant_screen_name(&users, "u2"), "u2");
    assert_eq!(participant_screen_name(&users, "nobody"), "nobody");
}

#[test]
fn users_missing_required_fields_are_skipped() {
    let doc = inbox(obj(vec![(
        "users",
        obj(vec![
            ("u1", user("u1", "alice")),
            ("u2", obj(vec![("id_str", s("u2")), ("screen_name", s("bob"))])),
            (
                "u3",
                obj(vec![
                    ("id_str", s("u3")),
                    ("screen_name", s("carol")),
                    ("name", s("Carol")),
                    ("profile_image_url_https", s("p")),
                    ("description", s("hello")),
                    ("verified", Json::Bool(true)),
                    ("protected", s("not a bool")),
                    ("followers_count", Json::Int(42)),
                    ("friends_count", Json::Int(4294967297)),
                ]),
            ),
        ]),
    )]));
    let resp = match parse_direct_message_conversations(&doc, "me") {
        Ok(r) => r,
        Err(_) => panic!("reconstruction failed"),
    };
    assert_eq!(resp.users.len(), 2);
    assert_eq!(resp.users[0].id, "u1");
    let carol = &resp.users[1];
    assert_eq!(carol.id, "u3");
    assert_eq!(carol.description.as_deref(), Some("hello"));
    assert_eq!(carol.verified, Some(true));
    assert_eq!(carol.protected, None);
    assert_eq!(carol.followers_count, Some(42));
    assert_eq!(carol.friends_count, Some(1));
}

#[test]
fn parse_user_requires_profile_image() {
    let u = obj(vec![("id_str", s("u")), ("screen_name", s("x")), ("name", s("n"))]);
    assert!(parse_user(&u).is_none());
    assert!(parse_user(&user("u", "x")).is_some());
}

#[test]
fn media_urls_concatenate_urls_then_media() {
    let data = obj(vec![(
        "entities",
        obj(vec![
            (
                "media",
                Json::Array(vec![
                    obj(vec![("media_url_https", s("https://m1")), ("media_url", s("http://m1"))]),
                    obj(vec![("media_url", s("http://m2"))]),
                    obj(vec![("media_url_https", Json::Null), ("media_url", s("http://m3"))]),
                ]),
            ),
            (
                "urls",
                Json::Array(vec![
                    obj(vec![("expanded_url", s("https://a"))]),
                    obj(vec![("url", s("t.co"))]),
                    obj(vec![("expanded_url", s("https://b"))]),
                ]),
            ),
        ]),
    )]);
    assert_eq!(
        extract_media_urls(&data),
        Some(vec![
            "https://a".to_string(),
            "https://b".to_string(),
            "https://m1".to_string(),
            "http://m2".to_string(),
        ])
    );
}

#[test]
fn media_urls_absent_when_none_found() {
    assert_eq!(extract_media_urls(&obj(vec![])), None);
    let empty = obj(vec![(
        "entities",
        obj(vec![("urls", Json::Array(vec![])), ("media", Json::Array(vec![obj(vec![])]))]),
    )]);
    assert_eq!(extract_media_urls(&empty), None);
}

#[test]
fn message_media_urls_reach_the_snapshot() {
    let entry = obj(vec![(
        "message",
        obj(vec![
            ("conversation_id", s("c1")),
            (
                "message_data",
                obj(vec![
                    ("id", s("m1")),
                    ("text", s("look")),
                    ("sender_id", s("u1")),
                    ("recipient_id", s("u2")),
                    ("time", s("1")),
                    (
                        "entities",
                        obj(vec![(
                            "urls",
                            Json::Array(vec![obj(vec![("expanded_url", s("https://e"))])]),
                        )]),
                    ),
                ]),
            ),
        ]),
    )]);
    let doc = inbox(obj(vec![
        ("conversations", obj(vec![("c1", conversation(&[]))])),
        ("entries", Json::Array(vec![entry])),
    ]));
    let resp = match parse_direct_message_conversations(&doc, "me") {
        Ok(r) => r,
        Err(_) => panic!("reconstruction failed"),
    };
    assert_eq!(resp.conversations[0].messages[0].media_urls, Some(vec!["https://e".to_string()]));
}

#[test]
fn timeline_status_defaults() {
    let t = obj(vec![("min_entry_id", s("77"))]);
    let status = match parse_timeline_status(Some(&t)) {
        Some(st) => st,
        None => panic!("expected a status"),
    };
    assert_eq!(status.status, "");
    assert_eq!(status.min_entry_id.as_deref(), Some("77"));
    assert!(parse_timeline_status(None).is_none());
}

#[test]
fn inbox_timelines_per_tier() {
    let doc = inbox(obj(vec![(
        "inbox_timelines",
        obj(vec![("trusted", obj(vec![("status", s("AT_END")), ("min_entry_id", s("9"))]))]),
    )]));
    let resp = match parse_direct_message_conversations(&doc, "me") {
        Ok(r) => r,
        Err(_) => panic!("reconstruction failed"),
    };
    let timelines = match resp.inbox_timelines {
        Some(t) => t,
        None => panic!("expected timelines"),
    };
    let trusted = match timelines.trusted {
        Some(t) => t,
        None => panic!("expected trusted status"),
    };
    assert_eq!(trusted.status, "AT_END");
    assert_eq!(trusted.min_entry_id.as_deref(), Some("9"));
    assert!(timelines.untrusted.is_none());
}

#[test]
fn grouping_index_preserves_arrival_order() {
    let entries = vec![
        message_entry("x", "1", "a", "b"),
        s("junk"),
        message_entry("y", "2", "a", "b"),
        message_entry("x", "3", "a", "b"),
    ];
    let groups = group_messages_by_conversation(&entries);
    assert_eq!(groups.len(), 2);
    assert_eq!(groups[0].0, "x");
    assert_eq!(groups[0].1.len(), 2);
    assert_eq!(groups[1].0, "y");
    assert_eq!(groups[1].1.len(), 1);
}

#[test]
fn inbox_address_with_and_without_cursor() {
    assert_eq!(inbox_url(None), "https://x.com/i/api/1.1/dm/inbox_initial_state.json");
    assert_eq!(
        inbox_url(Some("abc")),
        "https://x.com/i/api/1.1/dm/inbox_initial_state.json?cursor=abc"
    );
}

#[test]
fn grouping_index_has_one_nonempty_group_per_named_conversation() {
    let no_id = obj(vec![("message", obj(vec![("n", Json::Int(3))]))]);
    let entries = vec![
        message_entry("a", "1", "u", "v"),
        obj(vec![("x", Json::Int(1))]),
        message_entry("b", "2", "u", "v"),
        message_entry("a", "3", "u", "v"),
        no_id,
    ];
    let groups = group_messages_by_conversation(&entries);
    assert_eq!(groups.len(), 2);
    assert_eq!(groups[0].0, "a");
    assert_eq!(groups[1].0, "b");
    assert!(groups.iter().all(|g| !g.1.is_empty()));
    let ids: Vec<Option<&Json>> = groups[0].1.iter().map(|m| m.get("message_data")).collect();
    assert_eq!(ids.len(), 2);
}
