//! The event normalizer: one raw protocol event in, at most one uniform
//! event out, and for a relationship request the record to persist first.

use vstd::prelude::*;
use vstd::string::*;
use crate::clock::unix_now;
use crate::event::{
    EnvelopeView, EventView, GroupRequestSubType, Message, MessageSubType, MessageType, MetaEvent,
    MetaKind, Notice, NoticeKind, OneBotMessage, Post, RawPayload, RawPayloadView, Request,
    RequestKind, Response, ResponseEnvelope, Sender, opt_event,
};
use crate::json::{first_element, has_member, json_first_element, json_keys};
use crate::records::{RelationshipRequest, RequestRow, opt_request};
use crate::session::{RunbotState, SessionView};
use crate::text::{
    append_decimal,
    decimal_text,
    opt_text,
};

verus! {

/// The published name of a message type.
pub open spec fn message_type_text(t: MessageType) -> Seq<char> {
    match t {
        MessageType::Private => "private"@,
        MessageType::Group => "group"@,
        MessageType::Unknown(s) => s@,
    }
}

/// The published name of a message's finer kind.
pub open spec fn message_sub_type_text(t: MessageSubType) -> Seq<char> {
    match t {
        MessageSubType::Friend => "friend"@,
        MessageSubType::Normal => "normal"@,
        MessageSubType::Unknown(s) => s@,
    }
}

/// The published tag of a notice kind.
pub open spec fn notice_text(kind: NoticeKind) -> Seq<char> {
    match kind {
        NoticeKind::GroupUpload => "group_upload"@,
        NoticeKind::GroupAdmin => "group_admin"@,
        NoticeKind::GroupDecrease => "group_decrease"@,
        NoticeKind::GroupIncrease => "group_increase"@,
        NoticeKind::GroupBan => "group_ban"@,
        NoticeKind::FriendAdd => "friend_add"@,
        NoticeKind::GroupRecall => "group_recall"@,
        NoticeKind::FriendRecall => "friend_recall"@,
        NoticeKind::Notify => "notify"@,
        NoticeKind::Unknown => "unknown"@,
    }
}

/// Whether a notice of this kind names a peer.
pub open spec fn notice_has_user(kind: NoticeKind) -> bool {
    !(kind is Notify || kind is Unknown)
}

/// Whether a notice of this kind names a group.
pub open spec fn notice_has_group(kind: NoticeKind) -> bool {
    kind is GroupUpload || kind is GroupAdmin || kind is GroupDecrease || kind is GroupIncrease
        || kind is GroupBan || kind is GroupRecall
}

/// The published name of a group request's kind.
pub open spec fn group_request_text(t: GroupRequestSubType) -> Seq<char> {
    match t {
        GroupRequestSubType::Add => "add"@,
        GroupRequestSubType::Invite => "invite"@,
        GroupRequestSubType::Unknown(s) => s@,
    }
}

/// The action that an API answer is taken to answer, guessed from the
/// members of the first element of its data: a group member has a group, a
/// user and a role; a group has a group and a group name but no user; a friend
/// has a user and a nickname but no group. Anything else gives no guess.
pub open spec fn inferred_action(data: serde_json::Value) -> Option<Seq<char>> {
    match json_first_element(data) {
        None => None,
        Some(first) => {
            let keys = json_keys(first);
            if keys.contains("group_id"@) && keys.contains("user_id"@) && keys.contains("role"@) {
                Some("get_group_member_list"@)
            } else if keys.contains("group_id"@) && keys.contains("group_name"@) && !keys.contains(
                "user_id"@,
            ) {
                Some("get_group_list"@)
            } else if keys.contains("user_id"@) && keys.contains("nickname"@) && !keys.contains(
                "group_id"@,
            ) {
                Some("get_friend_list"@)
            } else {
                None
            }
        },
    }
}

/// An event with nothing but its envelope.
pub open spec fn bare_event(time: int, self_id: int, post_type: Seq<char>) -> EventView {
    EventView {
        time,
        self_id,
        post_type,
        message_type: None,
        sub_type: None,
        message_id: None,
        user_id: None,
        group_id: None,
        message: None,
        raw_message: None,
        sender: None,
        raw: None,
        request_type: None,
        comment: None,
        flag: None,
    }
}

/// The uniform event for a message, received (`sent` false) or sent.
pub open spec fn normalized_message(msg: Message, self_id: int, sent: bool) -> Option<EventView> {
    match msg.raw {
        None => None,
        Some(raw) => Some(
            EventView {
                message_type: Some(message_type_text(msg.message_type)),
                sub_type: if sent {
                    None
                } else {
                    Some(message_sub_type_text(msg.sub_type))
                },
                message_id: Some(msg.message_id as int),
                user_id: Some(msg.user_id as int),
                group_id: if msg.message_type is Group {
                    Some(msg.group_id as int)
                } else {
                    None
                },
                message: Some(msg.raw_message@),
                raw_message: Some(msg.raw_message@),
                sender: if sent {
                    None
                } else {
                    Some(msg.sender@)
                },
                raw: Some(RawPayloadView::Event(raw)),
                ..bare_event(
                    msg.time as int,
                    self_id,
                    if sent {
                        "message_sent"@
                    } else {
                        "message"@
                    },
                )
            },
        ),
    }
}

/// The uniform event for a notice.
pub open spec fn normalized_notice(notice: Notice, self_id: int, now: int) -> Option<EventView> {
    match notice.raw {
        None => None,
        Some(raw) => Some(
            EventView {
                sub_type: Some(notice_text(notice.kind)),
                user_id: if notice_has_user(notice.kind) {
                    Some(notice.user_id as int)
                } else {
                    None
                },
                group_id: if notice_has_group(notice.kind) {
                    Some(notice.group_id as int)
                } else {
                    None
                },
                raw: Some(RawPayloadView::Event(raw)),
                ..bare_event(now, self_id, "notice"@)
            },
        ),
    }
}

/// The uniform event for a relationship request. The identity is the one
/// that the request itself carries; only an unknown request takes the
/// session's.
pub open spec fn normalized_request(request: Request, self_id: int, now: int) -> Option<
    EventView,
> {
    match request.raw {
        None => None,
        Some(raw) => Some(
            match request.kind {
                RequestKind::Friend(req) => EventView {
                    user_id: Some(req.user_id as int),
                    raw: Some(RawPayloadView::Event(raw)),
                    request_type: Some("friend"@),
                    comment: Some(req.comment@),
                    flag: Some(req.flag@),
                    ..bare_event(now, req.self_id as int, "request"@)
                },
                RequestKind::Group(req) => EventView {
                    sub_type: Some(group_request_text(req.sub_type)),
                    user_id: Some(req.user_id as int),
                    group_id: Some(req.group_id as int),
                    raw: Some(RawPayloadView::Event(raw)),
                    request_type: Some("group"@),
                    comment: Some(req.comment@),
                    flag: Some(req.flag@),
                    ..bare_event(now, req.self_id as int, "request"@)
                },
                RequestKind::Unknown => EventView {
                    raw: Some(RawPayloadView::Event(raw)),
                    request_type: Some("unknown"@),
                    ..bare_event(now, self_id, "request"@)
                },
            },
        ),
    }
}

/// The uniform event for an API answer: the answer passed through, with the
/// guessed action.
pub open spec fn normalized_response(response: Response, self_id: int, now: int) -> EventView {
    EventView {
        raw: Some(
            RawPayloadView::Response(
                EnvelopeView {
                    status: response.status@,
                    retcode: response.retcode as int,
                    data: response.data,
                    message: response.message@,
                    echo: response.echo@,
                    action: inferred_action(response.data),
                },
            ),
        ),
        ..bare_event(now, self_id, "api_response"@)
    }
}

/// The uniform event for a meta event, which keeps its own time and identity.
pub open spec fn normalized_meta(meta: MetaEvent) -> Option<EventView> {
    match meta.raw {
        None => None,
        Some(raw) => Some(
            EventView {
                sub_type: Some(
                    match meta.kind {
                        MetaKind::Lifecycle => "lifecycle"@,
                        MetaKind::Heartbeat => "heartbeat"@,
                    },
                ),
                raw: Some(RawPayloadView::Event(raw)),
                ..bare_event(meta.time as int, meta.self_id as int, "meta_event"@)
            },
        ),
    }
}

/// The uniform event for `post`, read at time `now` under the identity
/// `self_id`. An event of unknown category, or one without a JSON rendering,
/// gives none.
pub open spec fn normalized(post: Post, self_id: int, now: int) -> Option<EventView> {
    match post {
        Post::Message(msg) => normalized_message(msg, self_id, false),
        Post::MessageSent(msg) => normalized_message(msg, self_id, true),
        Post::Notice(notice) => normalized_notice(notice, self_id, now),
        Post::Request(request) => normalized_request(request, self_id, now),
        Post::Response(response) => Some(normalized_response(response, self_id, now)),
        Post::MetaEvent(meta) => normalized_meta(meta),
        Post::Unknown => None,
    }
}

/// The display name that stands for a peer of whom only the id is known.
pub open spec fn peer_label(user_id: int) -> Seq<char> {
    "用户 "@ + decimal_text(user_id)
}

/// The display name that stands for a group of which only the id is known.
pub open spec fn group_label(group_id: int) -> Seq<char> {
    "群 "@ + decimal_text(group_id)
}

/// The id under which a request is stored: its kind, its token and the time
/// it was read, joined by underscores.
pub open spec fn request_id(kind: Seq<char>, flag: Seq<char>, now: int) -> Seq<char> {
    kind + "_"@ + flag + "_"@ + decimal_text(now)
}

/// The record that is persisted for a request read at time `now`: pending and
/// unread. An unknown request carries no token and gives none.
pub open spec fn persisted_request(request: Request, now: int) -> Option<RequestRow> {
    match request.kind {
        RequestKind::Friend(req) => Some(
            RequestRow {
                id: request_id("friend"@, req.flag@, now),
                timestamp: now,
                request_type: "friend"@,
                sub_type: None,
                user_id: req.user_id as int,
                user_name: peer_label(req.user_id as int),
                nickname: Some(peer_label(req.user_id as int)),
                comment: req.comment@,
                flag: req.flag@,
                group_id: None,
                group_name: None,
                status: "pending"@,
                is_read: false,
            },
        ),
        RequestKind::Group(req) => Some(
            RequestRow {
                id: request_id("group"@, req.flag@, now),
                timestamp: now,
                request_type: "group"@,
                sub_type: Some(group_request_text(req.sub_type)),
                user_id: req.user_id as int,
                user_name: peer_label(req.user_id as int),
                nickname: Some(peer_label(req.user_id as int)),
                comment: req.comment@,
                flag: req.flag@,
                group_id: Some(req.group_id as int),
                group_name: Some(group_label(req.group_id as int)),
                status: "pending"@,
                is_read: false,
            },
        ),
        RequestKind::Unknown => None,
    }
}

/// The record to persist for `post`, if it is a request with a token.
pub open spec fn record_of(post: Post, now: int) -> Option<RequestRow> {
    match post {
        Post::Request(request) => persisted_request(request, now),
        _ => None,
    }
}

fn message_type_string(t: &MessageType) -> (r: String)
    ensures
        r@ == message_type_text(*t),
{
    match t {
        MessageType::Private => "private".to_owned(),
        MessageType::Group => "group".to_owned(),
        MessageType::Unknown(s) => s.clone(),
    }
}

fn message_sub_type_string(t: &MessageSubType) -> (r: String)
    ensures
        r@ == message_sub_type_text(*t),
{
    match t {
        MessageSubType::Friend => "friend".to_owned(),
        MessageSubType::Normal => "normal".to_owned(),
        MessageSubType::Unknown(s) => s.clone(),
    }
}

fn group_request_string(t: &GroupRequestSubType) -> (r: String)
    ensures
        r@ == group_request_text(*t),
{
    match t {
        GroupRequestSubType::Add => "add".to_owned(),
        GroupRequestSubType::Invite => "invite".to_owned(),
        GroupRequestSubType::Unknown(s) => s.clone(),
    }
}

fn notice_string(kind: NoticeKind) -> (r: String)
    ensures
        r@ == notice_text(kind),
{
    match kind {
        NoticeKind::GroupUpload => "group_upload".to_owned(),
        NoticeKind::GroupAdmin => "group_admin".to_owned(),
        NoticeKind::GroupDecrease => "group_decrease".to_owned(),
        NoticeKind::GroupIncrease => "group_increase".to_owned(),
        NoticeKind::GroupBan => "group_ban".to_owned(),
        NoticeKind::FriendAdd => "friend_add".to_owned(),
        NoticeKind::GroupRecall => "group_recall".to_owned(),
        NoticeKind::FriendRecall => "friend_recall".to_owned(),
        NoticeKind::Notify => "notify".to_owned(),
        NoticeKind::Unknown => "unknown".to_owned(),
    }
}

fn bare(time: i64, self_id: i64, post_type: &str) -> (r: OneBotMessage)
    ensures
        r@ == bare_event(time as int, self_id as int, post_type@),
{
    OneBotMessage {
        time,
        self_id,
        post_type: post_type.to_owned(),
        message_type: None,
        sub_type: None,
        message_id: None,
        user_id: None,
        group_id: None,
        message: None,
        raw_message: None,
        sender: None,
        raw: None,
        request_type: None,
        comment: None,
        flag: None,
    }
}

/// Guesses the action that an API answer answers from the shape of its data.
pub fn infer_action(data: &serde_json::Value) -> (r: Option<String>)
    ensures
        opt_text(r) == inferred_action(*data),
{
    match first_element(data) {
        None => None,
        Some(first) => {
            let group = has_member(&first, "group_id");
            let user = has_member(&first, "user_id");
            if group && user && has_member(&first, "role") {
                Some("get_group_member_list".to_owned())
            } else if group && has_member(&first, "group_name") && !user {
                Some("get_group_list".to_owned())
            } else if user && has_member(&first, "nickname") && !group {
                Some("get_friend_list".to_owned())
            } else {
                None
            }
        },
    }
}

fn normalize_message(msg: &Message, self_id: i64, sent: bool) -> (r: Option<OneBotMessage>)
    ensures
        opt_event(r) == normalized_message(*msg, self_id as int, sent),
{
    match &msg.raw {
        None => None,
        Some(raw) => {
            let mut event = bare(
                msg.time,
                self_id,
                if sent {
                    "message_sent"
                } else {
                    "message"
                },
            );
            event.message_type = Some(message_type_string(&msg.message_type));
            if !sent {
                event.sub_type = Some(message_sub_type_string(&msg.sub_type));
                event.sender = Some(
                    Sender {
                        user_id: msg.sender.user_id,
                        nickname: msg.sender.nickname.clone(),
                        card: msg.sender.card.clone(),
                    },
                );
            }
            event.message_id = Some(msg.message_id);
            event.user_id = Some(msg.user_id);
            event.group_id = match &msg.message_type {
                MessageType::Group => Some(msg.group_id),
                _ => None,
            };
            event.message = Some(msg.raw_message.clone());
            event.raw_message = Some(msg.raw_message.clone());
            event.raw = Some(RawPayload::Event(raw.clone()));
            Some(event)
        },
    }
}

fn notice_names_user(kind: NoticeKind) -> (r: bool)
    ensures
        r == notice_has_user(kind),
{
    match kind {
        NoticeKind::Notify => false,
        NoticeKind::Unknown => false,
        _ => true,
    }
}

fn notice_names_group(kind: NoticeKind) -> (r: bool)
    ensures
        r == notice_has_group(kind),
{
    match kind {
        NoticeKind::GroupUpload => true,
        NoticeKind::GroupAdmin => true,
        NoticeKind::GroupDecrease => true,
        NoticeKind::GroupIncrease => true,
        NoticeKind::GroupBan => true,
        NoticeKind::GroupRecall => true,
        _ => false,
    }
}

fn normalize_notice(notice: &Notice, self_id: i64, now: i64) -> (r: Option<OneBotMessage>)
    ensures
        opt_event(r) == normalized_notice(*notice, self_id as int, now as int),
{
    match &notice.raw {
        None => None,
        Some(raw) => {
            let mut event = bare(now, self_id, "notice");
            event.sub_type = Some(notice_string(notice.kind));
            if notice_names_user(notice.kind) {
                event.user_id = Some(notice.user_id);
            }
            if notice_names_group(notice.kind) {
                event.group_id = Some(notice.group_id);
            }
            event.raw = Some(RawPayload::Event(raw.clone()));
            Some(event)
        },
    }
}

fn normalize_request(request: &Request, self_id: i64, now: i64) -> (r: Option<OneBotMessage>)
    ensures
        opt_event(r) == normalized_request(*request, self_id as int, now as int),
{
    match &request.raw {
        None => None,
        Some(raw) => {
            let event = match &request.kind {
                RequestKind::Friend(req) => {
                    let mut event = bare(now, req.self_id, "request");
                    event.user_id = Some(req.user_id);
                    event.request_type = Some("friend".to_owned());
                    event.comment = Some(req.comment.clone());
                    event.flag = Some(req.flag.clone());
                    event.raw = Some(RawPayload::Event(raw.clone()));
                    event
                },
                RequestKind::Group(req) => {
                    let mut event = bare(now, req.self_id, "request");
                    event.sub_type = Some(group_request_string(&req.sub_type));
                    event.user_id = Some(req.user_id);
                    event.group_id = Some(req.group_id);
                    event.request_type = Some("group".to_owned());
                    event.comment = Some(req.comment.clone());
                    event.flag = Some(req.flag.clone());
                    event.raw = Some(RawPayload::Event(raw.clone()));
                    event
                },
                RequestKind::Unknown => {
                    let mut event = bare(now, self_id, "request");
                    event.request_type = Some("unknown".to_owned());
                    event.raw = Some(RawPayload::Event(raw.clone()));
                    event
                },
            };
            Some(event)
        },
    }
}

fn normalize_response(response: &Response, self_id: i64, now: i64) -> (r: OneBotMessage)
    ensures
        r@ == normalized_response(*response, self_id as int, now as int),
{
    let mut event = bare(now, self_id, "api_response");
    event.raw = Some(
        RawPayload::Response(
            ResponseEnvelope {
                status: response.status.clone(),
                retcode: response.retcode,
                data: response.data.clone(),
                message: response.message.clone(),
                echo: response.echo.clone(),
                action: infer_action(&response.data),
            },
        ),
    );
    event
}

fn normalize_meta(meta: &MetaEvent) -> (r: Option<OneBotMessage>)
    ensures
        opt_event(r) == normalized_meta(*meta),
{
    match &meta.raw {
        None => None,
        Some(raw) => {
            let mut event = bare(meta.time, meta.self_id, "meta_event");
            event.sub_type = Some(
                match meta.kind {
                    MetaKind::Lifecycle => "lifecycle".to_owned(),
                    MetaKind::Heartbeat => "heartbeat".to_owned(),
                },
            );
            event.raw = Some(RawPayload::Event(raw.clone()));
            Some(event)
        },
    }
}

/// Normalizes `post` as read at time `now` under the identity `self_id`.
pub fn normalize_at(post: &Post, self_id: i64, now: i64) -> (r: Option<OneBotMessage>)
    ensures
        opt_event(r) == normalized(*post, self_id as int, now as int),
{
    match post {
        Post::Message(msg) => normalize_message(msg, self_id, false),
        Post::MessageSent(msg) => normalize_message(msg, self_id, true),
        Post::Notice(notice) => normalize_notice(notice, self_id, now),
        Post::Request(request) => normalize_request(request, self_id, now),
        Post::Response(response) => Some(normalize_response(response, self_id, now)),
        Post::MetaEvent(meta) => normalize_meta(meta),
        Post::Unknown => None,
    }
}

fn peer_label_string(user_id: i64) -> (r: String)
    ensures
        r@ == peer_label(user_id as int),
{
    let mut label = "用户 ".to_owned();
    append_decimal(&mut label, user_id);
    label
}

fn group_label_string(group_id: i64) -> (r: String)
    ensures
        r@ == group_label(group_id as int),
{
    let mut label = "群 ".to_owned();
    append_decimal(&mut label, group_id);
    label
}

fn request_id_string(kind: &str, flag: &str, now: i64) -> (r: String)
    ensures
        r@ == request_id(kind@, flag@, now as int),
{
    let mut id = kind.to_owned();
    id.append("_");
    id.append(flag);
    id.append("_");
    append_decimal(&mut id, now);
    id
}

/// Builds the record to persist for a request read at time `now`.
pub fn request_record(request: &Request, now: i64) -> (r: Option<RelationshipRequest>)
    ensures
        opt_request(r) == persisted_request(*request, now as int),
{
    match &request.kind {
        RequestKind::Friend(req) => Some(
            RelationshipRequest {
                id: request_id_string("friend", req.flag.as_str(), now),
                timestamp: now,
                request_type: "friend".to_owned(),
                sub_type: None,
                user_id: req.user_id,
                user_name: peer_label_string(req.user_id),
                nickname: Some(peer_label_string(req.user_id)),
                comment: req.comment.clone(),
                flag: req.flag.clone(),
                group_id: None,
                group_name: None,
                status: "pending".to_owned(),
                is_read: false,
            },
        ),
        RequestKind::Group(req) => Some(
            RelationshipRequest {
                id: request_id_string("group", req.flag.as_str(), now),
                timestamp: now,
                request_type: "group".to_owned(),
                sub_type: Some(group_request_string(&req.sub_type)),
                user_id: req.user_id,
                user_name: peer_label_string(req.user_id),
                nickname: Some(peer_label_string(req.user_id)),
                comment: req.comment.clone(),
                flag: req.flag.clone(),
                group_id: Some(req.group_id),
                group_name: Some(group_label_string(req.group_id)),
                status: "pending".to_owned(),
                is_read: false,
            },
        ),
        RequestKind::Unknown => None,
    }
}

/// What normalizing one raw event asks of the caller: persist `persist`, if
/// there is one, in the store of the account `account`, and only then publish
/// `event`, if there is one.
#[derive(Clone, Debug, PartialEq)]
pub struct Normalized {
    pub persist: Option<RelationshipRequest>,
    /// The identity that the event was normalized under.
    pub account: i64,
    pub event: Option<OneBotMessage>,
}

/// The identity that an event is normalized under: a request's own where it
/// carries one, a meta event's own, and the given one for all others.
pub open spec fn account_of(post: Post, self_id: i64) -> i64 {
    match post {
        Post::Request(request) => match request.kind {
            RequestKind::Friend(req) => req.self_id,
            RequestKind::Group(req) => req.self_id,
            RequestKind::Unknown => self_id,
        },
        Post::MetaEvent(meta) => meta.self_id,
        _ => self_id,
    }
}

/// Whatever is published for an event carries the identity that the event
/// was normalized under.
pub proof fn event_carries_its_account(post: Post, self_id: i64, now: int)
    ensures
        normalized(post, self_id as int, now) is Some ==> normalized(
            post,
            self_id as int,
            now,
        )->0.self_id == account_of(post, self_id),
{
}

/// Normalizes `post` as read at time `now`, together with the record to
/// persist before the event is published.
pub fn normalize_with_record(post: &Post, self_id: i64, now: i64) -> (r: Normalized)
    ensures
        opt_event(r.event) == normalized(*post, self_id as int, now as int),
        opt_request(r.persist) == record_of(*post, now as int),
        r.account == account_of(*post, self_id),
{
    let persist = match post {
        Post::Request(request) => request_record(request, now),
        _ => None,
    };
    let account = match post {
        Post::Request(request) => match &request.kind {
            RequestKind::Friend(req) => req.self_id,
            RequestKind::Group(req) => req.self_id,
            RequestKind::Unknown => self_id,
        },
        Post::MetaEvent(meta) => meta.self_id,
        _ => self_id,
    };
    Normalized { persist, account, event: normalize_at(post, self_id, now) }
}

/// Normalizes `post` at the current time. Whatever the clock says, the
/// result is what `normalize_with_record` gives for that reading.
pub fn post_to_onebot_message(post: &Post, self_id: i64) -> (r: Normalized)
    ensures
        r.account == account_of(*post, self_id),
        exists|now: i64|
            {
                &&& opt_event(r.event) == normalized(
                    *post,
                    self_id as int,
                    now as int,
                )
                &&& opt_request(r.persist) == #[trigger] record_of(
                    *post,
                    now as int,
                )
            },
{
    let now = unix_now();
    normalize_with_record(post, self_id, now)
}

/// The identity that an event speaks for: its own, where a message or a
/// meta event carries a positive one, else `fallback`.
pub open spec fn event_identity(post: Post, fallback: i64) -> i64 {
    match post {
        Post::Message(msg) => if msg.self_id > 0 {
            msg.self_id
        } else {
            fallback
        },
        Post::MetaEvent(meta) => if meta.self_id > 0 {
            meta.self_id
        } else {
            fallback
        },
        _ => fallback,
    }
}

/// Reads the identity that an event speaks for.
pub fn extract_self_id(post: &Post, fallback: i64) -> (r: i64)
    ensures
        r == event_identity(*post, fallback),
{
    match post {
        Post::Message(msg) => if msg.self_id > 0 {
            msg.self_id
        } else {
            fallback
        },
        Post::MetaEvent(meta) => if meta.self_id > 0 {
            meta.self_id
        } else {
            fallback
        },
        _ => fallback,
    }
}

/// What handling one raw event asks of the caller, in this order: announce
/// the identity in `learned`, persist and publish as `normalized` says.
#[derive(Clone, Debug, PartialEq)]
pub struct Processed {
    pub learned: Option<i64>,
    pub normalized: Normalized,
}

/// Handles one raw event that arrived on `session`, whose protocol client
/// guesses the identity `client_id`: latches the identity that the event
/// speaks for, if the live session has none yet, and normalizes the event
/// under that identity at the current time.
pub fn process_post(state: &mut RunbotState, session: u64, client_id: i64, post: &Post) -> (r:
    Processed)
    requires
        old(state).wf(),
    ensures
        final(state).wf(),
        r.learned is Some <==> (old(state).is_live(session) && old(state).self_id is None
            && event_identity(*post, client_id) > 0),
        r.learned is Some ==> r.learned == Some(event_identity(*post, client_id)) && final(state)@
            == (SessionView { self_id: r.learned, ..old(state)@ }),
        r.learned is None ==> *final(state) == *old(state),
        r.normalized.account == account_of(*post, event_identity(*post, client_id)),
        exists|now: i64|
            {
                &&& opt_event(r.normalized.event) == normalized(
                    *post,
                    event_identity(*post, client_id) as int,
                    now as int,
                )
                &&& opt_request(r.normalized.persist) == #[trigger] record_of(*post, now as int)
            },
{
    let self_id = extract_self_id(post, client_id);
    let learned = state.latch_identity(session, self_id);
    Processed { learned, normalized: post_to_onebot_message(post, self_id) }
}

} // verus!
