use vstd::prelude::*;

use crate::json::{deref_json, lookup, member, Json};

verus! {

// ---------------------------------------------------------------------------
// Domain types
// ---------------------------------------------------------------------------

#[derive(Debug, Clone)]
pub struct DirectMessage {
    pub id: String,
    pub text: String,
    pub sender_id: String,
    pub recipient_id: String,
    pub created_at: String,
    pub media_urls: Option<Vec<String>>,
    pub sender_screen_name: Option<String>,
    pub recipient_screen_name: Option<String>,
}

#[derive(Debug, Clone)]
pub struct DirectMessageConversation {
    pub conversation_id: String,
    pub messages: Vec<DirectMessage>,
    pub participants: Vec<Participant>,
}

#[derive(Debug, Clone)]
pub struct Participant {
    pub id: String,
    pub screen_name: String,
}

#[derive(Debug, Clone)]
pub struct DirectMessagesResponse {
    pub conversations: Vec<DirectMessageConversation>,
    pub users: Vec<TwitterUser>,
    pub cursor: Option<String>,
    pub last_seen_event_id: Option<String>,
    pub trusted_last_seen_event_id: Option<String>,
    pub untrusted_last_seen_event_id: Option<String>,
    pub inbox_timelines: Option<InboxTimelines>,
    pub user_id: String,
}

#[derive(Debug, Clone)]
pub struct InboxTimelines {
    pub trusted: Option<TimelineStatus>,
    pub untrusted: Option<TimelineStatus>,
}

#[derive(Debug, Clone)]
pub struct TimelineStatus {
    pub status: String,
    pub min_entry_id: Option<String>,
}

#[derive(Debug, Clone)]
pub struct TwitterUser {
    pub id: String,
    pub screen_name: String,
    pub name: String,
    pub profile_image_url: String,
    pub description: Option<String>,
    pub verified: Option<bool>,
    pub protected: Option<bool>,
    pub followers_count: Option<i32>,
    pub friends_count: Option<i32>,
}

#[derive(Debug, Clone)]
pub struct DirectMessageEvent {
    pub id: String,
    pub type_: String,
    pub message_create: MessageCreate,
}

#[derive(Debug, Clone)]
pub struct MessageCreate {
    pub sender_id: String,
    pub target: MessageTarget,
    pub message_data: MessageData,
}

#[derive(Debug, Clone)]
pub struct MessageTarget {
    pub recipient_id: String,
}

#[derive(Debug, Clone)]
pub struct MessageData {
    pub text: String,
    pub created_at: String,
    pub entities: Option<MessageEntities>,
}

#[derive(Debug, Clone)]
pub struct MessageEntities {
    pub urls: Option<Vec<UrlEntity>>,
    pub media: Option<Vec<MediaEntity>>,
}

#[derive(Debug, Clone)]
pub struct UrlEntity {
    pub url: String,
    pub expanded_url: String,
    pub display_url: String,
}

#[derive(Debug, Clone)]
pub struct MediaEntity {
    pub url: String,
    pub media_type: String,
}

#[derive(Debug, Clone)]
pub struct SendDirectMessageResponse {
    pub entries: Vec<MessageEntry>,
    pub users: std::collections::HashMap<String, TwitterUser>,
}

#[derive(Debug, Clone)]
pub struct MessageEntry {
    pub message: MessageInfo,
}

#[derive(Debug, Clone)]
pub struct MessageInfo {
    pub id: String,
    pub time: String,
    pub affects_sort: bool,
    pub conversation_id: String,
    pub message_data: MessageData,
}

/// The only fatal condition of reconstruction.
#[derive(Debug, Clone)]
pub enum ParseError {
    /// The document has no `inbox_initial_state` member.
    MissingInboxState,
}

// ---------------------------------------------------------------------------
// Mathematical views of the domain types
// ---------------------------------------------------------------------------

pub struct DirectMessageView {
    pub id: Seq<char>,
    pub text: Seq<char>,
    pub sender_id: Seq<char>,
    pub recipient_id: Seq<char>,
    pub created_at: Seq<char>,
    pub media_urls: Option<Seq<Seq<char>>>,
    pub sender_screen_name: Option<Seq<char>>,
    pub recipient_screen_name: Option<Seq<char>>,
}

pub struct ParticipantView {
    pub id: Seq<char>,
    pub screen_name: Seq<char>,
}

pub struct DirectMessageConversationView {
    pub conversation_id: Seq<char>,
    pub messages: Seq<DirectMessageView>,
    pub participants: Seq<ParticipantView>,
}

pub struct TwitterUserView {
    pub id: Seq<char>,
    pub screen_name: Seq<char>,
    pub name: Seq<char>,
    pub profile_image_url: Seq<char>,
    pub description: Option<Seq<char>>,
    pub verified: Option<bool>,
    pub protected: Option<bool>,
    pub followers_count: Option<i32>,
    pub friends_count: Option<i32>,
}

pub struct TimelineStatusView {
    pub status: Seq<char>,
    pub min_entry_id: Option<Seq<char>>,
}

pub struct InboxTimelinesView {
    pub trusted: Option<TimelineStatusView>,
    pub untrusted: Option<TimelineStatusView>,
}

pub struct DirectMessagesResponseView {
    pub conversations: Seq<DirectMessageConversationView>,
    pub users: Seq<TwitterUserView>,
    pub cursor: Option<Seq<char>>,
    pub last_seen_event_id: Option<Seq<char>>,
    pub trusted_last_seen_event_id: Option<Seq<char>>,
    pub untrusted_last_seen_event_id: Option<Seq<char>>,
    pub inbox_timelines: Option<InboxTimelinesView>,
    pub user_id: Seq<char>,
}

pub open spec fn opt_text(s: Option<String>) -> Option<Seq<char>> {
    match s {
        Some(t) => Some(t@),
        None => None,
    }
}

pub open spec fn texts(v: Seq<String>) -> Seq<Seq<char>> {
    v.map_values(|s: String| s@)
}

pub open spec fn opt_texts(v: Option<Vec<String>>) -> Option<Seq<Seq<char>>> {
    match v {
        Some(l) => Some(texts(l@)),
        None => None,
    }
}

impl View for DirectMessage {
    type V = DirectMessageView;

    open spec fn view(&self) -> DirectMessageView {
        DirectMessageView {
            id: self.id@,
            text: self.text@,
            sender_id: self.sender_id@,
            recipient_id: self.recipient_id@,
            created_at: self.created_at@,
            media_urls: opt_texts(self.media_urls),
            sender_screen_name: opt_text(self.sender_screen_name),
            recipient_screen_name: opt_text(self.recipient_screen_name),
        }
    }
}

impl View for Participant {
    type V = ParticipantView;

    open spec fn view(&self) -> ParticipantView {
        ParticipantView { id: self.id@, screen_name: self.screen_name@ }
    }
}

impl View for DirectMessageConversation {
    type V = DirectMessageConversationView;

    open spec fn view(&self) -> DirectMessageConversationView {
        DirectMessageConversationView {
            conversation_id: self.conversation_id@,
            messages: self.messages@.map_values(|m: DirectMessage| m@),
            participants: self.participants@.map_values(|p: Participant| p@),
        }
    }
}

impl View for TwitterUser {
    type V = TwitterUserView;

    open spec fn view(&self) -> TwitterUserView {
        TwitterUserView {
            id: self.id@,
            screen_name: self.screen_name@,
            name: self.name@,
            profile_image_url: self.profile_image_url@,
            description: opt_text(self.description),
            verified: self.verified,
            protected: self.protected,
            followers_count: self.followers_count,
            friends_count: self.friends_count,
        }
    }
}

impl View for TimelineStatus {
    type V = TimelineStatusView;

    open spec fn view(&self) -> TimelineStatusView {
        TimelineStatusView { status: self.status@, min_entry_id: opt_text(self.min_entry_id) }
    }
}

pub open spec fn opt_status(s: Option<TimelineStatus>) -> Option<TimelineStatusView> {
    match s {
        Some(t) => Some(t@),
        None => None,
    }
}

impl View for InboxTimelines {
    type V = InboxTimelinesView;

    open spec fn view(&self) -> InboxTimelinesView {
        InboxTimelinesView {
            trusted: opt_status(self.trusted),
            untrusted: opt_status(self.untrusted),
        }
    }
}

impl View for DirectMessagesResponse {
    type V = DirectMessagesResponseView;

    open spec fn view(&self) -> DirectMessagesResponseView {
        DirectMessagesResponseView {
            conversations: self.conversations@.map_values(|c: DirectMessageConversation| c@),
            users: self.users@.map_values(|u: TwitterUser| u@),
            cursor: opt_text(self.cursor),
            last_seen_event_id: opt_text(self.last_seen_event_id),
            trusted_last_seen_event_id: opt_text(self.trusted_last_seen_event_id),
            untrusted_last_seen_event_id: opt_text(self.untrusted_last_seen_event_id),
            inbox_timelines: match self.inbox_timelines {
                Some(t) => Some(t@),
                None => None,
            },
            user_id: self.user_id@,
        }
    }
}

// ---------------------------------------------------------------------------
// What reconstruction computes
// ---------------------------------------------------------------------------

/// The URL of a media entity: `media_url_https` where that member exists,
/// otherwise `media_url`; in either case only where it is a string.
pub open spec fn media_entity_url(media: Json) -> Option<Seq<char>> {
    if media.field("media_url_https"@) is Some {
        Json::text_of(media.field("media_url_https"@))
    } else {
        Json::text_of(media.field("media_url"@))
    }
}

pub open spec fn url_entity_url(url: Json) -> Option<Seq<char>> {
    Json::text_of(url.field("expanded_url"@))
}

/// All expanded URLs, then all media URLs, of a message's `entities`.
pub open spec fn media_url_list(message_data: Json) -> Seq<Seq<char>> {
    match message_data.field("entities"@) {
        Some(entities) => {
            let urls = match Json::items_of(entities.field("urls"@)) {
                Some(a) => a.filter_map(|u: Json| url_entity_url(u)),
                None => Seq::empty(),
            };
            let media = match Json::items_of(entities.field("media"@)) {
                Some(a) => a.filter_map(|m: Json| media_entity_url(m)),
                None => Seq::empty(),
            };
            urls + media
        },
        None => Seq::empty(),
    }
}

/// The media URLs of a message: absent where there are none.
pub open spec fn media_urls_of(message_data: Json) -> Option<Seq<Seq<char>>> {
    let l = media_url_list(message_data);
    if l.len() == 0 {
        None
    } else {
        Some(l)
    }
}

pub open spec fn timeline_status_of(timeline: Option<Json>) -> Option<TimelineStatusView> {
    match timeline {
        Some(t) => Some(
            TimelineStatusView {
                status: match Json::text_of(t.field("status"@)) {
                    Some(s) => s,
                    None => Seq::empty(),
                },
                min_entry_id: Json::text_of(t.field("min_entry_id"@)),
            },
        ),
        None => None,
    }
}

pub open spec fn inbox_timelines_of(inbox_state: Json) -> Option<InboxTimelinesView> {
    match inbox_state.field("inbox_timelines"@) {
        Some(t) => Some(
            InboxTimelinesView {
                trusted: timeline_status_of(t.field("trusted"@)),
                untrusted: timeline_status_of(t.field("untrusted"@)),
            },
        ),
        None => None,
    }
}

/// The `screen_name` of the user record filed under `id`, where it is a string.
pub open spec fn screen_name_of(users: Seq<(String, Json)>, id: Seq<char>) -> Option<Seq<char>> {
    match lookup(users, id) {
        Some(u) => Json::text_of(u.field("screen_name"@)),
        None => None,
    }
}

/// A participant's screen name: the user's, or else the bare id.
pub open spec fn resolved_screen_name(users: Seq<(String, Json)>, id: Seq<char>) -> Seq<char> {
    match screen_name_of(users, id) {
        Some(s) => s,
        None => id,
    }
}

pub open spec fn participant_of(users: Seq<(String, Json)>, p: Json) -> Option<ParticipantView> {
    match Json::text_of(p.field("user_id"@)) {
        Some(id) => Some(ParticipantView { id, screen_name: resolved_screen_name(users, id) }),
        None => None,
    }
}

pub open spec fn participants_of(users: Seq<(String, Json)>, conv: Json) -> Seq<ParticipantView> {
    match Json::items_of(conv.field("participants"@)) {
        Some(ps) => ps.filter_map(|p: Json| participant_of(users, p)),
        None => Seq::empty(),
    }
}

/// A user record, where its four required members are strings.
pub open spec fn user_of(u: Json) -> Option<TwitterUserView> {
    match (
        Json::text_of(u.field("id_str"@)),
        Json::text_of(u.field("screen_name"@)),
        Json::text_of(u.field("name"@)),
        Json::text_of(u.field("profile_image_url_https"@)),
    ) {
        (Some(id), Some(screen_name), Some(name), Some(profile_image_url)) => Some(
            TwitterUserView {
                id,
                screen_name,
                name,
                profile_image_url,
                description: Json::text_of(u.field("description"@)),
                verified: bool_of(u.field("verified"@)),
                protected: bool_of(u.field("protected"@)),
                followers_count: count_of(u.field("followers_count"@)),
                friends_count: count_of(u.field("friends_count"@)),
            },
        ),
        _ => None,
    }
}

pub open spec fn bool_of(v: Option<Json>) -> Option<bool> {
    match v {
        Some(Json::Bool(b)) => Some(b),
        _ => None,
    }
}

/// An integer count, cast to `i32` (keeping the low 32 bits).
pub open spec fn count_of(v: Option<Json>) -> Option<i32> {
    match v {
        Some(Json::Int(n)) => Some(n as i32),
        _ => None,
    }
}

pub open spec fn member_values(members: Seq<(String, Json)>) -> Seq<Json> {
    members.map_values(|e: (String, Json)| e.1)
}

pub open spec fn users_of(users: Seq<(String, Json)>) -> Seq<TwitterUserView> {
    member_values(users).filter_map(|u: Json| user_of(u))
}

/// The message node of an entry, where it names the conversation `conversation_id`.
pub open spec fn message_in(entry: Json, conversation_id: Seq<char>) -> Option<Json> {
    match entry.field("message"@) {
        Some(m) => if Json::text_of(m.field("conversation_id"@)) == Some(conversation_id) {
            Some(m)
        } else {
            None
        },
        None => None,
    }
}

/// The grouping index at `conversation_id`: the message nodes of the entries
/// that name it, in arrival order.
pub open spec fn bucket(entries: Seq<Json>, conversation_id: Seq<char>) -> Seq<Json> {
    entries.filter_map(|e: Json| message_in(e, conversation_id))
}

/// A message node, where its `message_data` holds the five required strings.
pub open spec fn message_of(users: Seq<(String, Json)>, m: Json) -> Option<DirectMessageView> {
    match m.field("message_data"@) {
        Some(d) => match (
            Json::text_of(d.field("id"@)),
            Json::text_of(d.field("text"@)),
            Json::text_of(d.field("sender_id"@)),
            Json::text_of(d.field("recipient_id"@)),
            Json::text_of(d.field("time"@)),
        ) {
            (Some(id), Some(text), Some(sender_id), Some(recipient_id), Some(created_at)) => Some(
                DirectMessageView {
                    id,
                    text,
                    sender_id,
                    recipient_id,
                    created_at,
                    media_urls: media_urls_of(d),
                    sender_screen_name: screen_name_of(users, sender_id),
                    recipient_screen_name: screen_name_of(users, recipient_id),
                },
            ),
            _ => None,
        },
        None => None,
    }
}

pub open spec fn messages_of(users: Seq<(String, Json)>, nodes: Seq<Json>) -> Seq<DirectMessageView> {
    nodes.filter_map(|m: Json| message_of(users, m))
}

pub open spec fn conversation_of(
    conversation_id: Seq<char>,
    conv: Json,
    nodes: Seq<Json>,
    users: Seq<(String, Json)>,
) -> DirectMessageConversationView {
    DirectMessageConversationView {
        conversation_id,
        messages: messages_of(users, nodes),
        participants: participants_of(users, conv),
    }
}

/// The members of the object at `key`, or none where it is absent or not an object.
pub open spec fn members_at(state: Json, key: Seq<char>) -> Seq<(String, Json)> {
    match Json::members_of(state.field(key)) {
        Some(m) => m,
        None => Seq::empty(),
    }
}

/// The items of the array at `key`, or none where it is absent or not an array.
pub open spec fn items_at(state: Json, key: Seq<char>) -> Seq<Json> {
    match Json::items_of(state.field(key)) {
        Some(a) => a,
        None => Seq::empty(),
    }
}

/// One conversation per member of the conversations map, in map order.
pub open spec fn conversations_of(state: Json) -> Seq<DirectMessageConversationView> {
    let entries = items_at(state, "entries"@);
    let users = members_at(state, "users"@);
    members_at(state, "conversations"@).map_values(
        |c: (String, Json)| conversation_of(c.0@, c.1, bucket(entries, c.0@), users),
    )
}

/// The snapshot reconstructed from the `inbox_initial_state` object.
pub open spec fn inbox_of(state: Json, user_id: Seq<char>) -> DirectMessagesResponseView {
    DirectMessagesResponseView {
        conversations: conversations_of(state),
        users: users_of(members_at(state, "users"@)),
        cursor: Json::text_of(state.field("cursor"@)),
        last_seen_event_id: Json::text_of(state.field("last_seen_event_id"@)),
        trusted_last_seen_event_id: Json::text_of(state.field("trusted_last_seen_event_id"@)),
        untrusted_last_seen_event_id: Json::text_of(state.field("untrusted_last_seen_event_id"@)),
        inbox_timelines: inbox_timelines_of(state),
        user_id,
    }
}

// ---------------------------------------------------------------------------
// Reconstruction
// ---------------------------------------------------------------------------

pub fn text_member(j: &Json, key: &str) -> (r: Option<String>)
    ensures
        opt_text(r) == Json::text_of(j.field(key@)),
{
    match j.get(key) {
        Some(v) => match v.as_str() {
            Some(s) => Some(s.clone()),
            None => None,
        },
        None => None,
    }
}

pub fn array_member<'a>(j: &'a Json, key: &str) -> (r: Option<&'a Vec<Json>>)
    ensures
        match r {
            Some(a) => Json::items_of(j.field(key@)) == Some(a@),
            None => Json::items_of(j.field(key@)) is None,
        },
{
    match j.get(key) {
        Some(v) => v.as_array(),
        None => None,
    }
}

pub fn object_member<'a>(j: &'a Json, key: &str) -> (r: Option<&'a Vec<(String, Json)>>)
    ensures
        match r {
            Some(m) => Json::members_of(j.field(key@)) == Some(m@),
            None => Json::members_of(j.field(key@)) is None,
        },
{
    match j.get(key) {
        Some(v) => v.as_object(),
        None => None,
    }
}

fn media_entity_url_of(media: &Json) -> (r: Option<String>)
    ensures
        opt_text(r) == media_entity_url(*media),
{
    match media.get("media_url_https") {
        Some(v) => match v.as_str() {
            Some(s) => Some(s.clone()),
            None => None,
        },
        None => text_member(media, "media_url"),
    }
}

/// Media and link URLs of one message: every `urls[].expanded_url`, then every
/// `media[].media_url_https` (or `media_url` where the former is absent), in
/// source order; `None` where there are none.
pub fn extract_media_urls(message_data: &Json) -> (r: Option<Vec<String>>)
    ensures
        opt_texts(r) == media_urls_of(*message_data),
{
    let mut urls: Vec<String> = Vec::new();
    if let Some(entities) = message_data.get("entities") {
        if let Some(url_entities) = array_member(entities, "urls") {
            let mut i: usize = 0;
            while i < url_entities.len()
                invariant
                    i <= url_entities@.len(),
                    texts(urls@) == url_entities@.take(i as int).filter_map(
                        |u: Json| url_entity_url(u),
                    ),
                decreases url_entities@.len() - i,
            {
                proof {
                    url_entities@.lemma_filter_map_take_succ(|u: Json| url_entity_url(u), i as int);
                }
                let url = &url_entities[i];
                if let Some(expanded_url) = text_member(url, "expanded_url") {
                    urls.push(expanded_url);
                }
                assert(texts(urls@) =~= url_entities@.take(i + 1).filter_map(
                    |u: Json| url_entity_url(u),
                ));
                i += 1;
            }
            assert(url_entities@.take(url_entities@.len() as int) =~= url_entities@);
        }
        assert(texts(urls@) =~= match Json::items_of(entities.field("urls"@)) {
            Some(a) => a.filter_map(|u: Json| url_entity_url(u)),
            None => Seq::empty(),
        });
        let ghost before = texts(urls@);
        if let Some(media_entities) = array_member(entities, "media") {
            let mut i: usize = 0;
            while i < media_entities.len()
                invariant
                    i <= media_entities@.len(),
                    texts(urls@) == before + media_entities@.take(i as int).filter_map(
                        |m: Json| media_entity_url(m),
                    ),
                decreases media_entities@.len() - i,
            {
                proof {
                    media_entities@.lemma_filter_map_take_succ(
                        |m: Json| media_entity_url(m),
                        i as int,
                    );
                }
                let media = &media_entities[i];
                let ghost prev = texts(urls@);
                if let Some(media_url) = media_entity_url_of(media) {
                    urls.push(media_url);
                }
                let ghost step = match media_entity_url(media_entities@[i as int]) {
                    Some(u) => seq![u],
                    None => Seq::empty(),
                };
                assert(texts(urls@) =~= prev + step);
                assert(before + (media_entities@.take(i as int).filter_map(
                    |m: Json| media_entity_url(m),
                ) + step) =~= prev + step);
                assert(texts(urls@) =~= before + media_entities@.take(i + 1).filter_map(
                    |m: Json| media_entity_url(m),
                ));
                i += 1;
            }
            assert(media_entities@.take(media_entities@.len() as int) =~= media_entities@);
        } else {
            assert(texts(urls@) =~= before + Seq::empty());
        }
        assert(texts(urls@) =~= media_url_list(*message_data));
    }
    if urls.len() == 0 {
        None
    } else {
        Some(urls)
    }
}

pub fn parse_timeline_status(timeline: Option<&Json>) -> (r: Option<TimelineStatus>)
    ensures
        opt_status(r) == timeline_status_of(deref_json(timeline)),
{
    match timeline {
        Some(t) => {
            let status = match text_member(t, "status") {
                Some(s) => s,
                None => String::new(),
            };
            Some(TimelineStatus { status, min_entry_id: text_member(t, "min_entry_id") })
        },
        None => None,
    }
}

pub fn parse_inbox_timelines(inbox_state: &Json) -> (r: Option<InboxTimelines>)
    ensures
        match r {
            Some(t) => inbox_timelines_of(*inbox_state) == Some(t@),
            None => inbox_timelines_of(*inbox_state) is None,
        },
{
    match inbox_state.get("inbox_timelines") {
        Some(timelines) => Some(
            InboxTimelines {
                trusted: parse_timeline_status(timelines.get("trusted")),
                untrusted: parse_timeline_status(timelines.get("untrusted")),
            },
        ),
        None => None,
    }
}

/// The screen name of the user record filed under `id`, where it has one.
pub fn lookup_screen_name(users: &Vec<(String, Json)>, id: &str) -> (r: Option<String>)
    ensures
        opt_text(r) == screen_name_of(users@, id@),
{
    match member(users, id) {
        Some(u) => text_member(u, "screen_name"),
        None => None,
    }
}

/// The screen name shown for participant `id`: the `screen_name` of the user
/// record filed under `id` where there is one holding a string, else `id` itself.
pub fn participant_screen_name(users: &Vec<(String, Json)>, id: &str) -> (r: String)
    ensures
        r@ == (match lookup(users@, id@) {
            Some(u) => match Json::text_of(u.field("screen_name"@)) {
                Some(s) => s,
                None => id@,
            },
            None => id@,
        }),
{
    match lookup_screen_name(users, id) {
        Some(s) => s,
        None => String::from_str(id),
    }
}

pub fn parse_participants(conv: &Json, users: &Vec<(String, Json)>) -> (r: Vec<Participant>)
    ensures
        r@.map_values(|p: Participant| p@) == participants_of(users@, *conv),
{
    let mut out: Vec<Participant> = Vec::new();
    if let Some(parts) = array_member(conv, "participants") {
        let mut i: usize = 0;
        while i < parts.len()
            invariant
                i <= parts@.len(),
                out@.map_values(|p: Participant| p@) == parts@.take(i as int).filter_map(
                    |p: Json| participant_of(users@, p),
                ),
            decreases parts@.len() - i,
        {
            proof {
                parts@.lemma_filter_map_take_succ(|p: Json| participant_of(users@, p), i as int);
            }
            if let Some(id) = text_member(&parts[i], "user_id") {
                let screen_name = participant_screen_name(users, id.as_str());
                out.push(Participant { id, screen_name });
            }
            assert(out@.map_values(|p: Participant| p@) =~= parts@.take(i + 1).filter_map(
                |p: Json| participant_of(users@, p),
            ));
            i += 1;
        }
        assert(parts@.take(parts@.len() as int) =~= parts@);
    } else {
        assert(out@.map_values(|p: Participant| p@) =~= Seq::empty());
    }
    out
}

fn int_member(j: &Json, key: &str) -> (r: Option<i64>)
    ensures
        r == (match j.field(key@) {
            Some(Json::Int(n)) => Some(n),
            _ => None::<i64>,
        }),
{
    match j.get(key) {
        Some(v) => v.as_i64(),
        None => None,
    }
}

fn bool_member(j: &Json, key: &str) -> (r: Option<bool>)
    ensures
        r == bool_of(j.field(key@)),
{
    match j.get(key) {
        Some(v) => v.as_bool(),
        None => None,
    }
}

fn count_member(j: &Json, key: &str) -> (r: Option<i32>)
    ensures
        r == count_of(j.field(key@)),
{
    match int_member(j, key) {
        Some(n) => Some(n as i32),
        None => None,
    }
}

/// One user record; `None` where a required member is missing or not a string.
pub fn parse_user(user: &Json) -> (r: Option<TwitterUser>)
    ensures
        match r {
            Some(u) => user_of(*user) == Some(u@),
            None => user_of(*user) is None,
        },
{
    let id = match text_member(user, "id_str") {
        Some(v) => v,
        None => return None,
    };
    let screen_name = match text_member(user, "screen_name") {
        Some(v) => v,
        None => return None,
    };
    let name = match text_member(user, "name") {
        Some(v) => v,
        None => return None,
    };
    let profile_image_url = match text_member(user, "profile_image_url_https") {
        Some(v) => v,
        None => return None,
    };
    Some(
        TwitterUser {
            id,
            screen_name,
            name,
            profile_image_url,
            description: text_member(user, "description"),
            verified: bool_member(user, "verified"),
            protected: bool_member(user, "protected"),
            followers_count: count_member(user, "followers_count"),
            friends_count: count_member(user, "friends_count"),
        },
    )
}

/// Every user record of the users map that has its required members, in map order.
pub fn parse_users(users: &Vec<(String, Json)>) -> (r: Vec<TwitterUser>)
    ensures
        r@.map_values(|u: TwitterUser| u@) == users_of(users@),
{
    let ghost values = member_values(users@);
    let mut out: Vec<TwitterUser> = Vec::new();
    let mut i: usize = 0;
    while i < users.len()
        invariant
            i <= users@.len(),
            values == member_values(users@),
            out@.map_values(|u: TwitterUser| u@) == values.take(i as int).filter_map(
                |u: Json| user_of(u),
            ),
        decreases users@.len() - i,
    {
        proof {
            values.lemma_filter_map_take_succ(|u: Json| user_of(u), i as int);
        }
        assert(values[i as int] == users@[i as int].1);
        if let Some(u) = parse_user(&users[i].1) {
            out.push(u);
        }
        assert(out@.map_values(|u: TwitterUser| u@) =~= values.take(i + 1).filter_map(
            |u: Json| user_of(u),
        ));
        i += 1;
    }
    assert(values.take(users@.len() as int) =~= values);
    out
}

pub open spec fn refs(v: Seq<&Json>) -> Seq<Json> {
    v.map_values(|r: &Json| *r)
}

/// `groups` is the grouping index of `entries`: one group per conversation id
/// that some entry names, each holding that conversation's bucket, which is
/// never empty.
pub open spec fn is_grouping_of(groups: Seq<(String, Vec<&Json>)>, entries: Seq<Json>) -> bool {
    &&& forall|a: int, b: int|
        0 <= a < groups.len() && 0 <= b < groups.len() && a != b ==> #[trigger] groups[a].0@
            != #[trigger] groups[b].0@
    &&& forall|g: int|
        0 <= g < groups.len() ==> refs(#[trigger] groups[g].1@) == bucket(entries, groups[g].0@)
    &&& forall|g: int| 0 <= g < groups.len() ==> (#[trigger] groups[g]).1@.len() > 0
    &&& forall|c: Seq<char>|
        #![trigger bucket(entries, c)]
        bucket(entries, c).len() > 0 ==> exists|g: int|
            0 <= g < groups.len() && #[trigger] groups[g].0@ == c
}

/// The position of the group of `conversation_id`, if there is one.
pub fn find_group(groups: &Vec<(String, Vec<&Json>)>, conversation_id: &String) -> (r: Option<
    usize,
>)
    ensures
        match r {
            Some(k) => k < groups@.len() && groups@[k as int].0@ == conversation_id@,
            None => forall|g: int| 0 <= g < groups@.len() ==> groups@[g].0@ != conversation_id@,
        },
{
    let mut k: usize = 0;
    while k < groups.len()
        invariant
            k <= groups@.len(),
            forall|g: int| 0 <= g < k ==> groups@[g].0@ != conversation_id@,
        decreases groups@.len() - k,
    {
        if groups[k].0 == *conversation_id {
            return Some(k);
        }
        k += 1;
    }
    None
}

/// The conversation id named by an entry's message node, with that node.
fn entry_message(entry: &Json) -> (r: Option<(String, &Json)>)
    ensures
        match r {
            Some((c, m)) => forall|x: Seq<char>| #[trigger]
                message_in(*entry, x) == if x == c@ {
                    Some(*m)
                } else {
                    None
                },
            None => forall|x: Seq<char>| #[trigger] message_in(*entry, x) is None,
        },
{
    match entry.get("message") {
        Some(m) => match text_member(m, "conversation_id") {
            Some(c) => Some((c, m)),
            None => None,
        },
        None => None,
    }
}

/// The grouping index: each message node filed under the conversation id it
/// names, in arrival order. Entries without a message or without a
/// conversation id are skipped.
pub fn group_messages_by_conversation(entries: &Vec<Json>) -> (r: Vec<(String, Vec<&Json>)>)
    ensures
        is_grouping_of(r@, entries@),
{
    let mut groups: Vec<(String, Vec<&Json>)> = Vec::new();
    let mut i: usize = 0;
    while i < entries.len()
        invariant
            i <= entries@.len(),
            is_grouping_of(groups@, entries@.take(i as int)),
        decreases entries@.len() - i,
    {
        let ghost before = entries@.take(i as int);
        let ghost after = entries@.take(i + 1);
        let ghost old_groups = groups@;
        proof {
            assert forall|c: Seq<char>|
                #[trigger] bucket(after, c) == bucket(before, c) + match message_in(
                    entries@[i as int],
                    c,
                ) {
                    Some(m) => seq![m],
                    None => Seq::empty(),
                } by {
                entries@.lemma_filter_map_take_succ(|e: Json| message_in(e, c), i as int);
            }
        }
        match entry_message(&entries[i]) {
            Some((c, m)) => {
                match find_group(&groups, &c) {
                    Some(k) => {
                        groups[k].1.push(m);
                        assert forall|g: int| 0 <= g < groups@.len() implies refs(
                            #[trigger] groups@[g].1@,
                        ) == bucket(after, groups@[g].0@) by {
                            if g == k {
                                assert(refs(groups@[g].1@) =~= refs(old_groups[g].1@) + seq![*m]);
                            } else {
                                assert(groups@[g] == old_groups[g]);
                            }
                        }
                        assert forall|x: Seq<char>| #[trigger]
                            bucket(after, x).len() > 0 implies exists|g: int|
                                0 <= g < groups@.len() && #[trigger] groups@[g].0@ == x by {
                            if x == c@ {
                                assert(groups@[k as int].0@ == x);
                            } else {
                                assert(bucket(after, x) == bucket(before, x) + Seq::<Json>::empty());
                                let g = choose|g: int|
                                    0 <= g < old_groups.len() && #[trigger] old_groups[g].0@ == x;
                                assert(groups@[g].0@ == x);
                            }
                        }
                    },
                    None => {
                        let ghost key = c@;
                        let mut fresh: Vec<&Json> = Vec::new();
                        fresh.push(m);
                        groups.push((c, fresh));
                        assert(bucket(before, key).len() == 0);
                        assert forall|g: int| 0 <= g < groups@.len() implies refs(
                            #[trigger] groups@[g].1@,
                        ) == bucket(after, groups@[g].0@) by {
                            if g == old_groups.len() {
                                assert(refs(groups@[g].1@) =~= seq![*m]);
                                assert(bucket(after, key) =~= seq![*m]);
                            } else {
                                assert(groups@[g] == old_groups[g]);
                            }
                        }
                        assert forall|x: Seq<char>| #[trigger]
                            bucket(after, x).len() > 0 implies exists|g: int|
                                0 <= g < groups@.len() && #[trigger] groups@[g].0@ == x by {
                            if x == key {
                                assert(groups@[old_groups.len() as int].0@ == x);
                            } else {
                                assert(bucket(after, x) == bucket(before, x) + Seq::<Json>::empty());
                                let g = choose|g: int|
                                    0 <= g < old_groups.len() && #[trigger] old_groups[g].0@ == x;
                                assert(groups@[g].0@ == x);
                            }
                        }
                    },
                }
            },
            None => {
                assert forall|x: Seq<char>| #[trigger]
                    bucket(after, x) == bucket(before, x) by {
                    assert(bucket(after, x) =~= bucket(before, x) + Seq::<Json>::empty());
                }
            },
        }
        i += 1;
    }
    assert(entries@.take(entries@.len() as int) =~= entries@);
    groups
}

/// One message node; `None` where `message_data` or one of its five required
/// strings is missing.
pub fn parse_direct_message(message: &Json, users: &Vec<(String, Json)>) -> (r: Option<
    DirectMessage,
>)
    ensures
        match r {
            Some(m) => message_of(users@, *message) == Some(m@),
            None => message_of(users@, *message) is None,
        },
{
    let message_data = match message.get("message_data") {
        Some(d) => d,
        None => return None,
    };
    let id = match text_member(message_data, "id") {
        Some(v) => v,
        None => return None,
    };
    let text = match text_member(message_data, "text") {
        Some(v) => v,
        None => return None,
    };
    let sender_id = match text_member(message_data, "sender_id") {
        Some(v) => v,
        None => return None,
    };
    let recipient_id = match text_member(message_data, "recipient_id") {
        Some(v) => v,
        None => return None,
    };
    let created_at = match text_member(message_data, "time") {
        Some(v) => v,
        None => return None,
    };
    let media_urls = extract_media_urls(message_data);
    let sender_screen_name = lookup_screen_name(users, sender_id.as_str());
    let recipient_screen_name = lookup_screen_name(users, recipient_id.as_str());
    Some(
        DirectMessage {
            id,
            text,
            sender_id,
            recipient_id,
            created_at,
            media_urls,
            sender_screen_name,
            recipient_screen_name,
        },
    )
}

/// The decodable messages among `messages`, in order.
pub fn parse_direct_messages(messages: &Vec<&Json>, users: &Vec<(String, Json)>) -> (r: Vec<
    DirectMessage,
>)
    ensures
        r@.map_values(|m: DirectMessage| m@) == messages_of(users@, refs(messages@)),
{
    let ghost nodes = refs(messages@);
    let mut out: Vec<DirectMessage> = Vec::new();
    let mut i: usize = 0;
    while i < messages.len()
        invariant
            i <= messages@.len(),
            nodes == refs(messages@),
            out@.map_values(|m: DirectMessage| m@) == nodes.take(i as int).filter_map(
                |m: Json| message_of(users@, m),
            ),
        decreases messages@.len() - i,
    {
        proof {
            nodes.lemma_filter_map_take_succ(|m: Json| message_of(users@, m), i as int);
        }
        if let Some(m) = parse_direct_message(messages[i], users) {
            out.push(m);
        }
        assert(out@.map_values(|m: DirectMessage| m@) =~= nodes.take(i + 1).filter_map(
            |m: Json| message_of(users@, m),
        ));
        i += 1;
    }
    assert(nodes.take(messages@.len() as int) =~= nodes);
    out
}

pub fn parse_conversation(
    conv_id: &String,
    conv: &Json,
    messages: &Vec<&Json>,
    users: &Vec<(String, Json)>,
) -> (r: DirectMessageConversation)
    ensures
        r@ == conversation_of(conv_id@, *conv, refs(messages@), users@),
{
    let parsed_messages = parse_direct_messages(messages, users);
    let participants = parse_participants(conv, users);
    DirectMessageConversation {
        conversation_id: conv_id.clone(),
        messages: parsed_messages,
        participants,
    }
}

/// Reconstructs the inbox snapshot from an inbox-state document.
///
/// Fails only where `inbox_initial_state` is absent; every substructure below
/// it degrades to empty, and every record missing a required member is skipped.
pub fn parse_direct_message_conversations(data: &Json, user_id: &str) -> (r: Result<
    DirectMessagesResponse,
    ParseError,
>)
    ensures
        match data.field("inbox_initial_state"@) {
            Some(state) => r matches Ok(resp) && resp@ == inbox_of(state, user_id@),
            None => r matches Err(ParseError::MissingInboxState),
        },
{
    let inbox_state = match data.get("inbox_initial_state") {
        Some(s) => s,
        None => return Err(ParseError::MissingInboxState),
    };
    let empty_map: Vec<(String, Json)> = Vec::new();
    let empty_vec: Vec<Json> = Vec::new();
    let conversations = match object_member(inbox_state, "conversations") {
        Some(m) => m,
        None => &empty_map,
    };
    let entries = match array_member(inbox_state, "entries") {
        Some(a) => a,
        None => &empty_vec,
    };
    let users = match object_member(inbox_state, "users") {
        Some(m) => m,
        None => &empty_map,
    };
    assert(conversations@ == members_at(*inbox_state, "conversations"@));
    assert(entries@ == items_at(*inbox_state, "entries"@));
    assert(users@ == members_at(*inbox_state, "users"@));

    let parsed_users = parse_users(users);
    let groups = group_messages_by_conversation(entries);
    let no_messages: Vec<&Json> = Vec::new();

    let ghost target = conversations_of(*inbox_state);
    let mut parsed_conversations: Vec<DirectMessageConversation> = Vec::new();
    let mut i: usize = 0;
    while i < conversations.len()
        invariant
            i <= conversations@.len(),
            is_grouping_of(groups@, entries@),
            no_messages@.len() == 0,
            target == conversations@.map_values(
                |c: (String, Json)|
                    conversation_of(c.0@, c.1, bucket(entries@, c.0@), users@),
            ),
            parsed_conversations@.len() == i,
            forall|k: int| 0 <= k < i ==> #[trigger] parsed_conversations@[k]@ == target[k],
        decreases conversations@.len() - i,
    {
        let conv_id = &conversations[i].0;
        let conv = &conversations[i].1;
        let parsed = match find_group(&groups, conv_id) {
            Some(k) => parse_conversation(conv_id, conv, &groups[k].1, users),
            None => {
                assert(bucket(entries@, conv_id@).len() == 0);
                assert(refs(no_messages@) =~= bucket(entries@, conv_id@));
                parse_conversation(conv_id, conv, &no_messages, users)
            },
        };
        parsed_conversations.push(parsed);
        i += 1;
    }
    let resp = DirectMessagesResponse {
        conversations: parsed_conversations,
        users: parsed_users,
        cursor: text_member(inbox_state, "cursor"),
        last_seen_event_id: text_member(inbox_state, "last_seen_event_id"),
        trusted_last_seen_event_id: text_member(inbox_state, "trusted_last_seen_event_id"),
        untrusted_last_seen_event_id: text_member(inbox_state, "untrusted_last_seen_event_id"),
        inbox_timelines: parse_inbox_timelines(inbox_state),
        user_id: String::from_str(user_id),
    };
    assert(resp@.conversations =~= target);
    Ok(resp)
}

/// The inbox-state address, with `?cursor=` and the cursor appended where one is given.
pub fn inbox_url(cursor: Option<&str>) -> (r: String)
    ensures
        r@ == match cursor {
            Some(c) => "https://x.com/i/api/1.1/dm/inbox_initial_state.json?cursor="@ + c@,
            None => "https://x.com/i/api/1.1/dm/inbox_initial_state.json"@,
        },
{
    match cursor {
        Some(c) => {
            let mut url = String::from_str(
                "https://x.com/i/api/1.1/dm/inbox_initial_state.json?cursor=",
            );
            url.append(c);
            url
        },
        None => String::from_str("https://x.com/i/api/1.1/dm/inbox_initial_state.json"),
    }
}

// ---------------------------------------------------------------------------
// Laws of reconstruction
// ---------------------------------------------------------------------------

/// A conversation id that is not a key of the conversations map names no
/// output conversation: messages filed under it are dropped, never gathered
/// into an invented conversation.
pub proof fn lemma_orphan_messages_dropped(state: Json, user_id: Seq<char>, conversation_id: Seq<char>)
    requires
        forall|k: int|
            0 <= k < members_at(state, "conversations"@).len() ==> (#[trigger] members_at(
                state,
                "conversations"@,
            )[k]).0@ != conversation_id,
    ensures
        forall|i: int|
            0 <= i < inbox_of(state, user_id).conversations.len() ==> (#[trigger] inbox_of(
                state,
                user_id,
            ).conversations[i]).conversation_id != conversation_id,
{
    let convs = members_at(state, "conversations"@);
    assert forall|i: int|
        0 <= i < inbox_of(state, user_id).conversations.len() implies (#[trigger] inbox_of(
        state,
        user_id,
    ).conversations[i]).conversation_id != conversation_id by {
        assert(convs[i].0@ != conversation_id);
    }
}

/// Every message of an output conversation was decoded from the message node
/// of an entry that names that conversation's id.
pub proof fn lemma_messages_belong_to_their_conversation(
    state: Json,
    user_id: Seq<char>,
    i: int,
    j: int,
)
    requires
        0 <= i < inbox_of(state, user_id).conversations.len(),
        0 <= j < inbox_of(state, user_id).conversations[i].messages.len(),
    ensures
        ({
            let conv = inbox_of(state, user_id).conversations[i];
            exists|e: int|
                #![trigger items_at(state, "entries"@)[e]]
                0 <= e < items_at(state, "entries"@).len() && match message_in(
                    items_at(state, "entries"@)[e],
                    conv.conversation_id,
                ) {
                    Some(m) => message_of(members_at(state, "users"@), m) == Some(
                        conv.messages[j],
                    ),
                    None => false,
                }
        }),
{
    let conv = inbox_of(state, user_id).conversations[i];
    let cid = conv.conversation_id;
    let entries = items_at(state, "entries"@);
    let users = members_at(state, "users"@);
    let nodes = bucket(entries, cid);
    let msg = conv.messages[j];
    let f = |m: Json| message_of(users, m);
    let g = |e: Json| message_in(e, cid);
    assert(conv.messages == nodes.filter_map(f));
    assert(nodes.filter_map(f).contains(msg));
    nodes.lemma_filter_map_contains(f, msg);
    let node = choose|t: Json| #[trigger] nodes.contains(t) && f(t) == Some(msg);
    entries.lemma_filter_map_contains(g, node);
    let en = choose|t: Json| #[trigger] entries.contains(t) && g(t) == Some(node);
    let e = choose|e: int| 0 <= e < entries.len() && entries[e] == en;
    assert(0 <= e < entries.len() && entries[e] == en);
}

/// Reconstruction yields exactly one conversation per key of the conversations
/// map, in map order, each holding the messages decoded from the whole bucket
/// that the grouping index files under its key.
pub proof fn lemma_one_conversation_per_key(state: Json, user_id: Seq<char>)
    ensures
        inbox_of(state, user_id).conversations.len() == members_at(state, "conversations"@).len(),
        forall|i: int|
            0 <= i < members_at(state, "conversations"@).len() ==> {
                let key = (#[trigger] members_at(state, "conversations"@)[i]).0@;
                let conv = inbox_of(state, user_id).conversations[i];
                &&& conv.conversation_id == key
                &&& conv.messages == messages_of(
                    members_at(state, "users"@),
                    bucket(items_at(state, "entries"@), key),
                )
            },
{
}

proof fn lemma_filter_map_none<A, B>(s: Seq<A>, f: spec_fn(A) -> Option<B>)
    ensures
        s.filter_map(f).len() == 0 <==> forall|k: int| 0 <= k < s.len() ==> (#[trigger] f(s[k])) is None,
    decreases s.len(),
{
    if s.len() > 0 {
        lemma_filter_map_none(s.drop_last(), f);
        assert forall|k: int| 0 <= k < s.len() - 1 implies #[trigger] s.drop_last()[k] == s[k] by {}
        if f(s.last()) is None {
            assert forall|k: int| 0 <= k < s.len() && (#[trigger] f(s[k])) is Some implies k
                < s.len() - 1 && f(s.drop_last()[k]) is Some by {}
        }
    }
}

proof fn lemma_filter_map_keeps<A, B>(s: Seq<A>, f: spec_fn(A) -> Option<B>, k: int)
    requires
        0 <= k < s.len(),
        f(s[k]) is Some,
    ensures
        s.filter_map(f).contains(f(s[k]).unwrap()),
    decreases s.len(),
{
    if k == s.len() - 1 {
        assert(s.filter_map(f) == s.drop_last().filter_map(f) + seq![f(s[k]).unwrap()]);
        assert(s.filter_map(f)[s.filter_map(f).len() - 1] == f(s[k]).unwrap());
    } else {
        assert(s.drop_last()[k] == s[k]);
        lemma_filter_map_keeps(s.drop_last(), f, k);
        let i = choose|i: int|
            0 <= i < s.drop_last().filter_map(f).len() && s.drop_last().filter_map(f)[i] == f(
                s[k],
            ).unwrap();
        match f(s.last()) {
            Some(b) => assert(s.filter_map(f)[i] == f(s[k]).unwrap()),
            None => assert(s.filter_map(f)[i] == f(s[k]).unwrap()),
        }
    }
}

proof fn lemma_filter_map_all<A, B>(s: Seq<A>, f: spec_fn(A) -> Option<B>)
    requires
        forall|k: int| 0 <= k < s.len() ==> (#[trigger] f(s[k])) is Some,
    ensures
        s.filter_map(f) == s.map_values(|a: A| f(a).unwrap()),
    decreases s.len(),
{
    if s.len() == 0 {
        assert(s.filter_map(f) =~= s.map_values(|a: A| f(a).unwrap()));
    } else {
        assert forall|k: int| 0 <= k < s.drop_last().len() implies (#[trigger] f(
            s.drop_last()[k],
        )) is Some by {
            assert(s.drop_last()[k] == s[k]);
        }
        lemma_filter_map_all(s.drop_last(), f);
        assert(f(s[s.len() - 1]) is Some);
        assert(s.filter_map(f) =~= s.map_values(|a: A| f(a).unwrap()));
    }
}

/// Media URLs are never `Some` of an empty list, and are `None` exactly when
/// no URL entity has a string `expanded_url` and no media entity yields a URL.
pub proof fn lemma_media_urls_none_iff_nothing_found(message_data: Json)
    ensures
        media_urls_of(message_data) != Some(Seq::<Seq<char>>::empty()),
        media_urls_of(message_data) is None <==> match message_data.field("entities"@) {
            Some(entities) => {
                &&& forall|k: int|
                    0 <= k < items_at(entities, "urls"@).len() ==> (#[trigger] url_entity_url(
                        items_at(entities, "urls"@)[k],
                    )) is None
                &&& forall|k: int|
                    0 <= k < items_at(entities, "media"@).len() ==> (#[trigger] media_entity_url(
                        items_at(entities, "media"@)[k],
                    )) is None
            },
            None => true,
        },
{
    if let Some(entities) = message_data.field("entities"@) {
        let urls = items_at(entities, "urls"@);
        let media = items_at(entities, "media"@);
        let fu = |u: Json| url_entity_url(u);
        let fm = |m: Json| media_entity_url(m);
        lemma_filter_map_none(urls, fu);
        lemma_filter_map_none(media, fm);
        assert(urls.filter_map(fu) == match Json::items_of(entities.field("urls"@)) {
            Some(a) => a.filter_map(fu),
            None => Seq::empty(),
        });
        assert(media.filter_map(fm) == match Json::items_of(entities.field("media"@)) {
            Some(a) => a.filter_map(fm),
            None => Seq::empty(),
        });
        assert(media_url_list(message_data) == urls.filter_map(fu) + media.filter_map(fm));
        assert forall|k: int| 0 <= k < urls.len() implies (fu(urls[k]) is None <==> (
        #[trigger] url_entity_url(urls[k])) is None) by {}
        assert forall|k: int| 0 <= k < media.len() implies (fm(media[k]) is None <==> (
        #[trigger] media_entity_url(media[k])) is None) by {}
    }
}

/// A participant with a string `user_id` is kept, under that id and the
/// screen name of its user record, or the id itself where there is none.
pub proof fn lemma_participant_resolved(users: Seq<(String, Json)>, conv: Json, k: int)
    requires
        0 <= k < items_at(conv, "participants"@).len(),
        Json::text_of(items_at(conv, "participants"@)[k].field("user_id"@)) is Some,
    ensures
        ({
            let id = Json::text_of(items_at(conv, "participants"@)[k].field("user_id"@)).unwrap();
            participants_of(users, conv).contains(
                ParticipantView {
                    id,
                    screen_name: match screen_name_of(users, id) {
                        Some(s) => s,
                        None => id,
                    },
                },
            )
        }),
{
    let ps = items_at(conv, "participants"@);
    let f = |p: Json| participant_of(users, p);
    lemma_filter_map_keeps(ps, f, k);
    assert(participants_of(users, conv) == ps.filter_map(f));
}

/// The conversation id named by an entry's message, where it is a string.
pub open spec fn entry_conversation_id(entry: Json) -> Option<Seq<char>> {
    match entry.field("message"@) {
        Some(m) => Json::text_of(m.field("conversation_id"@)),
        None => None,
    }
}

/// The `message_data.id` of an entry's message, where it is a string.
pub open spec fn entry_message_id(entry: Json) -> Option<Seq<char>> {
    match entry.field("message"@) {
        Some(m) => match m.field("message_data"@) {
            Some(d) => Json::text_of(d.field("id"@)),
            None => None,
        },
        None => None,
    }
}

/// A message whose entry names a conversation absent from the conversations
/// map appears in no output conversation, where no other entry carries its id.
pub proof fn lemma_orphan_message_absent(state: Json, user_id: Seq<char>, e: int, message_id: Seq<char>)
    requires
        0 <= e < items_at(state, "entries"@).len(),
        entry_message_id(items_at(state, "entries"@)[e]) == Some(message_id),
        entry_conversation_id(items_at(state, "entries"@)[e]) matches Some(c) && forall|k: int|
            0 <= k < members_at(state, "conversations"@).len() ==> (#[trigger] members_at(
                state,
                "conversations"@,
            )[k]).0@ != c,
        forall|o: int|
            0 <= o < items_at(state, "entries"@).len() && o != e ==> entry_message_id(
                #[trigger] items_at(state, "entries"@)[o],
            ) != Some(message_id),
    ensures
        forall|i: int, j: int|
            0 <= i < inbox_of(state, user_id).conversations.len() && 0 <= j < inbox_of(
                state,
                user_id,
            ).conversations[i].messages.len() ==> (#[trigger] inbox_of(
                state,
                user_id,
            ).conversations[i].messages[j]).id != message_id,
{
    let entries = items_at(state, "entries"@);
    let c = entry_conversation_id(entries[e]).unwrap();
    lemma_orphan_messages_dropped(state, user_id, c);
    assert forall|i: int, j: int|
        0 <= i < inbox_of(state, user_id).conversations.len() && 0 <= j < inbox_of(
            state,
            user_id,
        ).conversations[i].messages.len() implies (#[trigger] inbox_of(
        state,
        user_id,
    ).conversations[i].messages[j]).id != message_id by {
        let conv = inbox_of(state, user_id).conversations[i];
        lemma_messages_belong_to_their_conversation(state, user_id, i, j);
        let o = choose|o: int|
            #![trigger entries[o]]
            0 <= o < entries.len() && match message_in(entries[o], conv.conversation_id) {
                Some(m) => message_of(members_at(state, "users"@), m) == Some(conv.messages[j]),
                None => false,
            };
        if conv.messages[j].id == message_id {
            assert(entry_message_id(entries[o]) == Some(message_id));
            assert(o == e);
            assert(entry_conversation_id(entries[o]) == Some(conv.conversation_id));
        }
    }
}

/// Where every message of a conversation's bucket decodes, the conversation's
/// message ids are the bucket's ids, in arrival order.
pub proof fn lemma_full_bucket_ids(state: Json, user_id: Seq<char>, i: int)
    requires
        0 <= i < members_at(state, "conversations"@).len(),
        forall|k: int|
            0 <= k < bucket(
                items_at(state, "entries"@),
                members_at(state, "conversations"@)[i].0@,
            ).len() ==> (#[trigger] message_of(
                members_at(state, "users"@),
                bucket(items_at(state, "entries"@), members_at(state, "conversations"@)[i].0@)[k],
            )) is Some,
    ensures
        inbox_of(state, user_id).conversations[i].messages.map_values(
            |m: DirectMessageView| m.id,
        ) == bucket(
            items_at(state, "entries"@),
            members_at(state, "conversations"@)[i].0@,
        ).map_values(|n: Json| message_of(members_at(state, "users"@), n).unwrap().id),
{
    let users = members_at(state, "users"@);
    let nodes = bucket(items_at(state, "entries"@), members_at(state, "conversations"@)[i].0@);
    let f = |m: Json| message_of(users, m);
    assert forall|k: int| 0 <= k < nodes.len() implies (#[trigger] f(nodes[k])) is Some by {
        assert(message_of(users, nodes[k]) is Some);
    }
    lemma_filter_map_all(nodes, f);
    lemma_one_conversation_per_key(state, user_id);
    let msgs = inbox_of(state, user_id).conversations[i].messages;
    assert(msgs == nodes.filter_map(f));
    assert(msgs.map_values(|m: DirectMessageView| m.id) =~= nodes.map_values(
        |n: Json| message_of(users, n).unwrap().id,
    ));
}

} // verus!
