use agent_twitter_client::json::Json;
use agent_twitter_client::timeline::home::{
    extract_timeline_entries, home_timeline_url, home_timeline_url_from_encoded, TwitterResponse,
};

fn s(v: &str) -> Json {
    Json::Str(v.to_string())
}

fn obj(members: Vec<(&str, Json)>) -> Json {
    Json::Object(members.into_iter().map(|(k, v)| (k.to_string(), v)).collect())
}

fn tweet(id: &str) -> Json {
    obj(vec![
        ("__typename", s("Tweet")),
        ("rest_id", s(id)),
        ("legacy", obj(vec![("full_text", s("text")), ("favorite_count", Json::Int(3))])),
    ])
}

fn entry(payload: Json) -> Json {
    obj(vec![(
        "content",
        obj(vec![("itemContent", obj(vec![("tweet_results", obj(vec![("result", payload)]))]))]),
    )])
}

fn add_entries(entries: Vec<Json>) -> Json {
    obj(vec![("type", s("TimelineAddEntries")), ("entries", Json::Array(entries))])
}

fn document(instructions: Vec<Json>) -> Json {
    obj(vec![(
        "data",
        obj(vec![(
            "home",
            obj(vec![("home_timeline_urt", obj(vec![("instructions", Json::Array(instructions))]))]),
        )]),
    )])
}

fn rest_ids(tweets: &[TwitterResponse]) -> Vec<String> {
    tweets.iter().map(|t| t.rest_id.clone().unwrap_or_default()).collect()
}

#[test]
fn entries_keep_source_order() {
    let doc = document(vec![
        add_entries(vec![entry(tweet("1")), entry(tweet("2"))]),
        add_entries(vec![entry(tweet("3"))]),
    ]);
    let tweets = extract_timeline_entries(&doc);
    assert_eq!(rest_ids(&tweets), vec!["1", "2", "3"]);
    assert_eq!(tweets[0].typename.as_deref(), Some("Tweet"));
    assert_eq!(tweets[0].legacy.full_text.as_deref(), Some("text"));
    assert_eq!(tweets[0].legacy.favorite_count, Some(3));
}

#[test]
fn undecodable_entry_does_not_truncate_the_rest() {
    let no_legacy = obj(vec![("rest_id", s("bad1"))]);
    let wrong_type = obj(vec![("rest_id", Json::Int(7)), ("legacy", obj(vec![]))]);
    let deep_wrong = obj(vec![
        ("rest_id", s("bad3")),
        ("legacy", obj(vec![("display_text_range", Json::Array(vec![Json::Int(0), s("x")]))])),
    ]);
    let doc = document(vec![add_entries(vec![
        entry(tweet("1")),
        entry(no_legacy),
        entry(wrong_type),
        entry(deep_wrong),
        entry(tweet("2")),
    ])]);
    assert_eq!(rest_ids(&extract_timeline_entries(&doc)), vec!["1", "2"]);
}

#[test]
fn other_instructions_and_missing_hops_are_skipped() {
    let doc = document(vec![
        obj(vec![("type", s("TimelineClearCache"))]),
        add_entries(vec![
            obj(vec![("content", obj(vec![("cursorType", s("Top"))]))]),
            entry(Json::Null),
            obj(vec![("entryId", s("x"))]),
            entry(tweet("9")),
        ]),
    ]);
    assert_eq!(rest_ids(&extract_timeline_entries(&doc)), vec!["9"]);
}

#[test]
fn missing_structure_yields_empty() {
    assert!(extract_timeline_entries(&obj(vec![])).is_empty());
    assert!(extract_timeline_entries(&obj(vec![("data", Json::Null)])).is_empty());
    assert!(extract_timeline_entries(&s("nothing")).is_empty());
    assert!(extract_timeline_entries(&document(vec![])).is_empty());
}

#[test]
fn null_members_decode_as_absent() {
    let payload = obj(vec![
        ("rest_id", Json::Null),
        ("views", Json::Null),
        ("legacy", obj(vec![("lang", Json::Null), ("retweet_count", Json::Int(0))])),
    ]);
    let tweets = extract_timeline_entries(&document(vec![add_entries(vec![entry(payload)])]));
    assert_eq!(tweets.len(), 1);
    assert!(tweets[0].rest_id.is_none());
    assert!(tweets[0].views.is_none());
    assert!(tweets[0].legacy.lang.is_none());
    assert_eq!(tweets[0].legacy.retweet_count, Some(0));
}

#[test]
fn fractional_count_fails_decoding() {
    let payload = obj(vec![("legacy", obj(vec![("reply_count", Json::OtherNumber)]))]);
    let doc = document(vec![add_entries(vec![entry(payload), entry(tweet("ok"))])]);
    assert_eq!(rest_ids(&extract_timeline_entries(&doc)), vec!["ok"]);
}

#[test]
fn quoted_status_nests_a_whole_tweet() {
    let inner = tweet("inner");
    let outer = obj(vec![
        ("rest_id", s("outer")),
        ("legacy", obj(vec![("is_quote_status", Json::Bool(true))])),
        ("quoted_status_result", obj(vec![("result", inner)])),
    ]);
    let tweets = extract_timeline_entries(&document(vec![add_entries(vec![entry(outer)])]));
    assert_eq!(tweets.len(), 1);
    let quoted = match &tweets[0].quoted_status_result {
        Some(q) => q,
        None => panic!("expected a quoted status"),
    };
    let inner = match &quoted.result {
        Some(t) => t,
        None => panic!("expected a nested tweet"),
    };
    assert_eq!(inner.rest_id.as_deref(), Some("inner"));
    assert_eq!(tweets[0].legacy.is_quote_status, Some(true));
}

#[test]
fn malformed_quoted_status_drops_the_entry() {
    let outer = obj(vec![
        ("rest_id", s("outer")),
        ("legacy", obj(vec![])),
        ("quoted_status_result", obj(vec![("result", obj(vec![("rest_id", s("no legacy"))]))])),
    ]);
    let doc = document(vec![add_entries(vec![entry(outer)])]);
    assert!(extract_timeline_entries(&doc).is_empty());
}

#[test]
fn author_and_raw_lists_are_decoded() {
    let payload = obj(vec![
        (
            "core",
            obj(vec![(
                "user_results",
                obj(vec![(
                    "result",
                    obj(vec![
                        ("__typename", s("User")),
                        (
                            "legacy",
                            obj(vec![
                                ("screen_name", s("alice")),
                                ("followers_count", Json::Int(10)),
                                ("pinned_tweet_ids_str", Json::Array(vec![s("p1")])),
                            ]),
                        ),
                        (
                            "professional",
                            obj(vec![(
                                "category",
                                Json::Array(vec![obj(vec![("id", Json::Int(5)), ("name", s("Tech"))])]),
                            )]),
                        ),
                        ("tipjar_settings", obj(vec![("is_enabled", Json::Bool(false))])),
                    ]),
                )]),
            )]),
        ),
        (
            "legacy",
            obj(vec![
                (
                    "entities",
                    obj(vec![
                        ("hashtags", Json::Array(vec![obj(vec![("text", s("rust"))])])),
                        (
                            "urls",
                            Json::Array(vec![obj(vec![
                                ("expanded_url", s("https://e")),
                                ("indices", Json::Array(vec![Json::Int(1), Json::Int(2)])),
                            ])]),
                        ),
                    ]),
                ),
                ("display_text_range", Json::Array(vec![Json::Int(0), Json::Int(4)])),
            ]),
        ),
        ("views", obj(vec![("count", s("100")), ("state", s("EnabledWithCount"))])),
        ("edit_control", obj(vec![("edit_tweet_ids", Json::Array(vec![s("e1"), s("e2")]))])),
    ]);
    let tweets = extract_timeline_entries(&document(vec![add_entries(vec![entry(payload)])]));
    assert_eq!(tweets.len(), 1);
    let t = &tweets[0];
    let author = t.core.as_ref().and_then(|c| c.user_results.as_ref()).and_then(|u| u.result.as_ref());
    let author = match author {
        Some(a) => a,
        None => panic!("expected an author"),
    };
    assert_eq!(author.typename.as_deref(), Some("User"));
    let legacy = author.legacy.as_ref().map(|l| (l.screen_name.clone(), l.followers_count));
    assert_eq!(legacy, Some((Some("alice".to_string()), Some(10))));
    let pinned = author.legacy.as_ref().and_then(|l| l.pinned_tweet_ids_str.clone());
    assert_eq!(pinned, Some(vec!["p1".to_string()]));
    let category = author.professional.as_ref().and_then(|p| p.category.as_ref()).map(|c| c.len());
    assert_eq!(category, Some(1));
    let tipjar = author.tipjar_settings.as_ref().map(|m| m.len());
    assert_eq!(tipjar, Some(1));
    let entities = match &t.legacy.entities {
        Some(e) => e,
        None => panic!("expected entities"),
    };
    assert_eq!(entities.hashtags.as_ref().map(|h| h.len()), Some(1));
    match entities.hashtags.as_ref().map(|h| &h[0]) {
        Some(Json::Object(m)) => {
            assert_eq!(m[0].0, "text");
            assert!(matches!(&m[0].1, Json::Str(v) if v == "rust"));
        },
        _ => panic!("expected a copied hashtag object"),
    }
    let url = entities.urls.as_ref().map(|u| (u[0].expanded_url.clone(), u[0].indices.clone()));
    assert_eq!(url, Some((Some("https://e".to_string()), Some(vec![1, 2]))));
    assert_eq!(t.legacy.display_text_range, Some(vec![0, 4]));
    assert_eq!(t.views.as_ref().and_then(|v| v.count.clone()).as_deref(), Some("100"));
    let edits = t.edit_control.as_ref().and_then(|e| e.edit_tweet_ids.clone());
    assert_eq!(edits, Some(vec!["e1".to_string(), "e2".to_string()]));
}

#[test]
fn timeline_address_percent_encodes_parameters() {
    let url = home_timeline_url("{\"count\":20}", "a b");
    assert_eq!(
        url,
        "https://x.com/i/api/graphql/HJFjzBgCs16TqxewQOeLNg/HomeTimeline?variables=%7B%22count%22%3A20%7D&features=a%20b"
    );
    assert_eq!(
        home_timeline_url("", "x-y_z.~"),
        "https://x.com/i/api/graphql/HJFjzBgCs16TqxewQOeLNg/HomeTimeline?variables=&features=x-y_z.~"
    );
}

#[test]
fn timeline_address_from_encoded_parameters() {
    assert_eq!(
        home_timeline_url_from_encoded("%7B%7D", "f"),
        "https://x.com/i/api/graphql/HJFjzBgCs16TqxewQOeLNg/HomeTimeline?variables=%7B%7D&features=f"
    );
}

#[test]
fn cloned_tweet_keeps_quoted_status() {
    let outer = obj(vec![
        ("rest_id", s("outer")),
        ("legacy", obj(vec![])),
        ("unmention_data", obj(vec![("k", Json::Array(vec![Json::Int(1)]))])),
        ("quoted_status_result", obj(vec![("result", tweet("inner"))])),
    ]);
    let tweets = extract_timeline_entries(&document(vec![add_entries(vec![entry(outer)])]));
    let copy = tweets[0].clone();
    assert_eq!(copy.rest_id.as_deref(), Some("outer"));
    let inner = copy.quoted_status_result.as_ref().and_then(|q| q.result.as_ref());
    assert_eq!(inner.and_then(|t| t.rest_id.clone()).as_deref(), Some("inner"));
    match copy.unmention_data.as_ref().map(|m| &m[0]) {
        Some((k, Json::Array(items))) => {
            assert_eq!(k, "k");
            assert!(matches!(items[0], Json::Int(1)));
        },
        _ => panic!("expected the copied member"),
    }
}

#[test]
fn cloned_document_is_the_same_document() {
    let doc = obj(vec![("a", Json::Array(vec![s("x"), Json::Null, Json::Bool(true)]))]);
    let copy = doc.clone();
    assert_eq!(format!("{:?}", copy), format!("{:?}", doc));
}
