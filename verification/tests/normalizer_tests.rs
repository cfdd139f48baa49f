use runbot_desktop::event::{
    message_to_cqcode, FriendRequest, GroupRequest, GroupRequestSubType, Message, MessageData,
    MessageSubType, MessageType, MetaEvent, MetaKind, Notice, NoticeKind, OneBotMessage, Post,
    RawPayload, Request, RequestKind, Response, ResponseEnvelope, Sender,
};
use runbot_desktop::normalizer::{
    extract_self_id, infer_action, normalize_at, normalize_with_record, post_to_onebot_message,
    process_post, request_record,
};
use runbot_desktop::records::RelationshipRequest;
use runbot_desktop::session::RunbotState;

fn doc(text: &str) -> serde_json::Value {
    serde_json::from_str(text).unwrap()
}

fn message(kind: MessageType) -> Message {
    Message {
        self_id: 100,
        user_id: 42,
        time: 1000,
        message_id: 7,
        message_type: kind,
        sender: Sender { user_id: 42, nickname: "nick".to_string(), card: "card".to_string() },
        raw_message: "hi".to_string(),
        sub_type: MessageSubType::Friend,
        message: vec![MessageData::Text { text: "hi".to_string() }],
        group_id: 9,
        raw: Some(doc("{\"raw_message\":\"hi\"}")),
    }
}

fn bare(time: i64, self_id: i64, post_type: &str) -> OneBotMessage {
    OneBotMessage {
        time,
        self_id,
        post_type: post_type.to_string(),
        message_type: None,
        sub_type: None,
        message_id: None,
        user_id: None,
        group_id: None,
        message: None,
        raw_message: None,
        sender: None,
        raw: None,
        request_type: None,
        comment: None,
        flag: None,
    }
}

#[test]
fn cqcode_renders_each_segment() {
    let mut msg = message(MessageType::Private);
    msg.message = vec![
        MessageData::Text { text: "a ".to_string() },
        MessageData::Image { file: "f.png".to_string(), sub_type: 0, url: "http://u".to_string() },
        MessageData::Image { file: String::new(), sub_type: -2, url: String::new() },
        MessageData::Face { id: "14".to_string() },
        MessageData::Other,
        MessageData::At { qq: "all".to_string() },
        MessageData::Text { text: " z".to_string() },
    ];
    assert_eq!(
        message_to_cqcode(&msg),
        "a [CQ:image,file=f.png,url=http://u,sub_type=0][CQ:image,sub_type=-2][CQ:face,id=14][CQ:at,qq=all] z"
    );
    msg.message = vec![];
    assert_eq!(message_to_cqcode(&msg), "");
}

#[test]
fn private_message_is_normalized() {
    let msg = message(MessageType::Private);
    let mut expected = bare(1000, 5, "message");
    expected.message_type = Some("private".to_string());
    expected.sub_type = Some("friend".to_string());
    expected.message_id = Some(7);
    expected.user_id = Some(42);
    expected.message = Some("hi".to_string());
    expected.raw_message = Some("hi".to_string());
    expected.sender = Some(msg.sender.clone());
    expected.raw = Some(RawPayload::Event(doc("{\"raw_message\":\"hi\"}")));
    assert_eq!(normalize_at(&Post::Message(msg), 5, 99), Some(expected));
}

#[test]
fn group_message_sent_is_normalized() {
    let mut msg = message(MessageType::Group);
    msg.sub_type = MessageSubType::Unknown("odd".to_string());
    let mut expected = bare(1000, 5, "message_sent");
    expected.message_type = Some("group".to_string());
    expected.message_id = Some(7);
    expected.user_id = Some(42);
    expected.group_id = Some(9);
    expected.message = Some("hi".to_string());
    expected.raw_message = Some("hi".to_string());
    expected.raw = Some(RawPayload::Event(doc("{\"raw_message\":\"hi\"}")));
    assert_eq!(normalize_at(&Post::MessageSent(msg.clone()), 5, 99), Some(expected));
    let received = normalize_at(&Post::Message(msg), 5, 99).unwrap();
    assert_eq!(received.sub_type, Some("odd".to_string()));
    assert_eq!(received.group_id, Some(9));
    let other = normalize_at(&Post::Message(message(MessageType::Unknown("x".to_string()))), 5, 99)
        .unwrap();
    assert_eq!(other.message_type, Some("x".to_string()));
    assert_eq!(other.group_id, None);
}

#[test]
fn events_without_a_rendering_or_a_category_are_dropped() {
    let mut msg = message(MessageType::Private);
    msg.raw = None;
    assert_eq!(normalize_at(&Post::Message(msg), 5, 99), None);
    assert_eq!(normalize_at(&Post::Unknown, 5, 99), None);
    let notice = Notice { kind: NoticeKind::FriendAdd, user_id: 1, group_id: 2, raw: None };
    assert_eq!(normalize_at(&Post::Notice(notice), 5, 99), None);
    let request = Request { kind: RequestKind::Unknown, raw: None };
    assert_eq!(normalize_at(&Post::Request(request), 5, 99), None);
    let meta = MetaEvent { kind: MetaKind::Heartbeat, time: 1, self_id: 2, raw: None };
    assert_eq!(normalize_at(&Post::MetaEvent(meta), 5, 99), None);
}

#[test]
fn notices_carry_peer_and_group_by_kind() {
    let cases = [
        (NoticeKind::GroupUpload, "group_upload", Some(1), Some(2)),
        (NoticeKind::GroupAdmin, "group_admin", Some(1), Some(2)),
        (NoticeKind::GroupDecrease, "group_decrease", Some(1), Some(2)),
        (NoticeKind::GroupIncrease, "group_increase", Some(1), Some(2)),
        (NoticeKind::GroupBan, "group_ban", Some(1), Some(2)),
        (NoticeKind::FriendAdd, "friend_add", Some(1), None),
        (NoticeKind::GroupRecall, "group_recall", Some(1), Some(2)),
        (NoticeKind::FriendRecall, "friend_recall", Some(1), None),
        (NoticeKind::Notify, "notify", None, None),
        (NoticeKind::Unknown, "unknown", None, None),
    ];
    for (kind, tag, user, group) in cases {
        let notice = Notice { kind, user_id: 1, group_id: 2, raw: Some(doc("{}")) };
        let mut expected = bare(99, 5, "notice");
        expected.sub_type = Some(tag.to_string());
        expected.user_id = user;
        expected.group_id = group;
        expected.raw = Some(RawPayload::Event(doc("{}")));
        assert_eq!(normalize_at(&Post::Notice(notice), 5, 99), Some(expected));
    }
}

#[test]
fn requests_are_normalized_under_their_own_identity() {
    let friend = FriendRequest {
        self_id: 100,
        user_id: 7,
        comment: "hello".to_string(),
        flag: "t1".to_string(),
    };
    let request = Request { kind: RequestKind::Friend(friend), raw: Some(doc("{\"a\":1}")) };
    let mut expected = bare(99, 100, "request");
    expected.user_id = Some(7);
    expected.request_type = Some("friend".to_string());
    expected.comment = Some("hello".to_string());
    expected.flag = Some("t1".to_string());
    expected.raw = Some(RawPayload::Event(doc("{\"a\":1}")));
    assert_eq!(normalize_at(&Post::Request(request), 5, 99), Some(expected));

    let group = GroupRequest {
        self_id: 0,
        sub_type: GroupRequestSubType::Invite,
        group_id: 9,
        user_id: 7,
        comment: String::new(),
        flag: "t2".to_string(),
    };
    let request = Request { kind: RequestKind::Group(group), raw: Some(doc("{}")) };
    let event = normalize_at(&Post::Request(request), 5, 99).unwrap();
    assert_eq!(event.self_id, 0);
    assert_eq!(event.sub_type, Some("invite".to_string()));
    assert_eq!(event.group_id, Some(9));
    assert_eq!(event.request_type, Some("group".to_string()));

    let request = Request { kind: RequestKind::Unknown, raw: Some(doc("{}")) };
    let mut expected = bare(99, 5, "request");
    expected.request_type = Some("unknown".to_string());
    expected.raw = Some(RawPayload::Event(doc("{}")));
    assert_eq!(normalize_at(&Post::Request(request), 5, 99), Some(expected));
}

#[test]
fn request_records_are_pending_and_unread() {
    let friend = FriendRequest {
        self_id: 100,
        user_id: 7,
        comment: "hello".to_string(),
        flag: "t1".to_string(),
    };
    let request = Request { kind: RequestKind::Friend(friend), raw: None };
    assert_eq!(
        request_record(&request, 1700000000),
        Some(RelationshipRequest {
            id: "friend_t1_1700000000".to_string(),
            timestamp: 1700000000,
            request_type: "friend".to_string(),
            sub_type: None,
            user_id: 7,
            user_name: "用户 7".to_string(),
            nickname: Some("用户 7".to_string()),
            comment: "hello".to_string(),
            flag: "t1".to_string(),
            group_id: None,
            group_name: None,
            status: "pending".to_string(),
            is_read: false,
        })
    );
    let group = GroupRequest {
        self_id: 100,
        sub_type: GroupRequestSubType::Unknown("x".to_string()),
        group_id: 9,
        user_id: 7,
        comment: String::new(),
        flag: "t2".to_string(),
    };
    let request = Request { kind: RequestKind::Group(group), raw: Some(doc("{}")) };
    let record = request_record(&request, -1).unwrap();
    assert_eq!(record.id, "group_t2_-1");
    assert_eq!(record.sub_type, Some("x".to_string()));
    assert_eq!(record.group_id, Some(9));
    assert_eq!(record.group_name, Some("群 9".to_string()));
    let normalized = normalize_with_record(&Post::Request(request), 5, -1);
    assert_eq!(normalized.persist, Some(record));
    assert_eq!(normalized.account, 100);
    assert!(normalized.event.is_some());
    assert_eq!(request_record(&Request { kind: RequestKind::Unknown, raw: None }, 1), None);
    assert_eq!(normalize_with_record(&Post::Unknown, 5, 1).persist, None);
    assert_eq!(normalize_with_record(&Post::Unknown, 5, 1).account, 5);
}

#[test]
fn action_is_guessed_from_the_first_element() {
    assert_eq!(
        infer_action(&doc("[{\"group_id\":1,\"user_id\":2,\"role\":\"admin\",\"nickname\":\"n\"}]")),
        Some("get_group_member_list".to_string())
    );
    assert_eq!(
        infer_action(&doc("[{\"group_id\":1,\"group_name\":\"g\"}]")),
        Some("get_group_list".to_string())
    );
    assert_eq!(
        infer_action(&doc("[{\"user_id\":2,\"nickname\":\"n\"}, {\"group_id\":1}]")),
        Some("get_friend_list".to_string())
    );
    assert_eq!(infer_action(&doc("[{\"group_id\":1,\"group_name\":\"g\",\"user_id\":2}]")), None);
    assert_eq!(infer_action(&doc("[{\"user_id\":2}]")), None);
    assert_eq!(infer_action(&doc("[]")), None);
    assert_eq!(infer_action(&doc("[5]")), None);
    assert_eq!(infer_action(&doc("{\"user_id\":2,\"nickname\":\"n\"}")), None);
    assert_eq!(infer_action(&doc("null")), None);
}

#[test]
fn responses_pass_through_with_the_guess() {
    let response = Response {
        status: "ok".to_string(),
        retcode: 0,
        data: doc("[{\"user_id\":2,\"nickname\":\"n\"}]"),
        message: "m".to_string(),
        echo: "e".to_string(),
    };
    let mut expected = bare(99, 5, "api_response");
    expected.raw = Some(RawPayload::Response(ResponseEnvelope {
        status: "ok".to_string(),
        retcode: 0,
        data: doc("[{\"user_id\":2,\"nickname\":\"n\"}]"),
        message: "m".to_string(),
        echo: "e".to_string(),
        action: Some("get_friend_list".to_string()),
    }));
    assert_eq!(normalize_at(&Post::Response(response), 5, 99), Some(expected));
}

#[test]
fn meta_events_keep_their_own_time_and_identity() {
    let meta = MetaEvent { kind: MetaKind::Lifecycle, time: 11, self_id: 22, raw: Some(doc("{}")) };
    let mut expected = bare(11, 22, "meta_event");
    expected.sub_type = Some("lifecycle".to_string());
    expected.raw = Some(RawPayload::Event(doc("{}")));
    assert_eq!(normalize_at(&Post::MetaEvent(meta), 5, 99), Some(expected));
    let meta = MetaEvent { kind: MetaKind::Heartbeat, time: 11, self_id: 22, raw: Some(doc("{}")) };
    assert_eq!(
        normalize_at(&Post::MetaEvent(meta), 5, 99).unwrap().sub_type,
        Some("heartbeat".to_string())
    );
}

#[test]
fn identity_is_read_from_messages_and_meta_events() {
    assert_eq!(extract_self_id(&Post::Message(message(MessageType::Private)), 5), 100);
    let mut msg = message(MessageType::Private);
    msg.self_id = 0;
    assert_eq!(extract_self_id(&Post::Message(msg.clone()), 5), 5);
    msg.self_id = 100;
    assert_eq!(extract_self_id(&Post::MessageSent(msg), 5), 5);
    let meta = MetaEvent { kind: MetaKind::Heartbeat, time: 1, self_id: 22, raw: None };
    assert_eq!(extract_self_id(&Post::MetaEvent(meta), 5), 22);
    assert_eq!(extract_self_id(&Post::Unknown, 5), 5);
}

#[test]
fn processing_latches_the_first_identity_only() {
    let mut state = RunbotState::new();
    let (session, _) = state.install_session("ws://h", &None).unwrap();
    let post = Post::Message(message(MessageType::Private));
    let processed = process_post(&mut state, session, 0, &post);
    assert_eq!(processed.learned, Some(100));
    assert_eq!(state.self_id, Some(100));
    assert_eq!(processed.normalized.event.unwrap().self_id, 100);
    let mut other = message(MessageType::Private);
    other.self_id = 200;
    let processed = process_post(&mut state, session, 0, &Post::Message(other));
    assert_eq!(processed.learned, None);
    assert_eq!(state.self_id, Some(100));
    assert_eq!(processed.normalized.event.unwrap().self_id, 200);
    let mut state = RunbotState::new();
    let processed = process_post(&mut state, 3, 0, &post);
    assert_eq!(processed.learned, None);
    assert_eq!(state, RunbotState::new());
}

#[test]
fn normalizing_now_stamps_the_current_time() {
    let notice = Notice { kind: NoticeKind::Notify, user_id: 1, group_id: 2, raw: Some(doc("{}")) };
    let before = std::time::SystemTime::now()
        .duration_since(std::time::UNIX_EPOCH)
        .unwrap()
        .as_secs() as i64;
    let normalized = post_to_onebot_message(&Post::Notice(notice), 5);
    let time = normalized.event.unwrap().time;
    assert!(before - 1 <= time && time <= before + 2);
    assert_eq!(normalized.persist, None);
}
