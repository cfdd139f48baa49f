//! Protocol events as the normalizer reads them, and the uniform event that
//! it publishes.

use vstd::prelude::*;
use vstd::string::*;
use crate::records::opt_int;
use crate::text::{append_decimal, decimal_text, opt_text};

verus! {

/// Whether a message was sent in a private chat or in a group.
#[derive(Clone, Debug, PartialEq)]
pub enum MessageType {
    Private,
    Group,
    Unknown(String),
}

/// The finer kind of a message.
#[derive(Clone, Debug, PartialEq)]
pub enum MessageSubType {
    Friend,
    Normal,
    Unknown(String),
}

/// Who sent a message.
#[derive(Clone, Debug, PartialEq)]
pub struct Sender {
    pub user_id: i64,
    pub nickname: String,
    pub card: String,
}

/// One segment of a message's content.
#[derive(Clone, Debug, PartialEq)]
pub enum MessageData {
    Text { text: String },
    Face { id: String },
    Image { file: String, sub_type: i64, url: String },
    At { qq: String },
    /// A segment kind that has no text rendering.
    Other,
}

/// A chat message, received or sent.
#[derive(Clone, Debug, PartialEq)]
pub struct Message {
    pub self_id: i64,
    pub user_id: i64,
    pub time: i64,
    pub message_id: i64,
    pub message_type: MessageType,
    pub sender: Sender,
    pub raw_message: String,
    pub sub_type: MessageSubType,
    pub message: Vec<MessageData>,
    pub group_id: i64,
    /// The whole event as a JSON document; `None` where it could not be
    /// rendered.
    pub raw: Option<serde_json::Value>,
}

/// The kinds of notice.
#[derive(Clone, Copy, Debug, PartialEq, Eq)]
pub enum NoticeKind {
    GroupUpload,
    GroupAdmin,
    GroupDecrease,
    GroupIncrease,
    GroupBan,
    FriendAdd,
    GroupRecall,
    FriendRecall,
    Notify,
    Unknown,
}

/// A notice. `user_id` and `group_id` hold what the event carried; which of
/// them a kind has is decided by the normalizer.
#[derive(Clone, Debug, PartialEq)]
pub struct Notice {
    pub kind: NoticeKind,
    pub user_id: i64,
    pub group_id: i64,
    pub raw: Option<serde_json::Value>,
}

/// How a group request came about.
#[derive(Clone, Debug, PartialEq)]
pub enum GroupRequestSubType {
    Add,
    Invite,
    Unknown(String),
}

/// A request to become a friend.
#[derive(Clone, Debug, PartialEq)]
pub struct FriendRequest {
    pub self_id: i64,
    pub user_id: i64,
    pub comment: String,
    pub flag: String,
}

/// A request to join a group, or an invitation to one.
#[derive(Clone, Debug, PartialEq)]
pub struct GroupRequest {
    pub self_id: i64,
    pub sub_type: GroupRequestSubType,
    pub group_id: i64,
    pub user_id: i64,
    pub comment: String,
    pub flag: String,
}

/// The kinds of relationship request.
#[derive(Clone, Debug, PartialEq)]
pub enum RequestKind {
    Friend(FriendRequest),
    Group(GroupRequest),
    Unknown,
}

/// A relationship request with its JSON rendering.
#[derive(Clone, Debug, PartialEq)]
pub struct Request {
    pub kind: RequestKind,
    pub raw: Option<serde_json::Value>,
}

/// The answer to an API call.
#[derive(Clone, Debug, PartialEq)]
pub struct Response {
    pub status: String,
    pub retcode: i64,
    pub data: serde_json::Value,
    pub message: String,
    pub echo: String,
}

/// Which meta event.
#[derive(Clone, Copy, Debug, PartialEq, Eq)]
pub enum MetaKind {
    Lifecycle,
    Heartbeat,
}

/// A lifecycle or heartbeat event.
#[derive(Clone, Debug, PartialEq)]
pub struct MetaEvent {
    pub kind: MetaKind,
    pub time: i64,
    pub self_id: i64,
    pub raw: Option<serde_json::Value>,
}

/// One raw protocol event.
#[derive(Clone, Debug, PartialEq)]
pub enum Post {
    MetaEvent(MetaEvent),
    Response(Response),
    Message(Message),
    Notice(Notice),
    Request(Request),
    MessageSent(Message),
    Unknown,
}

/// An API answer as it is published, with the action it is taken to answer.
#[derive(Clone, Debug, PartialEq)]
pub struct ResponseEnvelope {
    pub status: String,
    pub retcode: i64,
    pub data: serde_json::Value,
    pub message: String,
    pub echo: String,
    pub action: Option<String>,
}

/// The structured payload that a published event carries along.
#[derive(Clone, Debug, PartialEq)]
pub enum RawPayload {
    /// The raw event's own JSON rendering.
    Event(serde_json::Value),
    /// The envelope of an API answer.
    Response(ResponseEnvelope),
}

/// The uniform event published to the user interface.
#[derive(Clone, Debug, PartialEq)]
pub struct OneBotMessage {
    pub time: i64,
    pub self_id: i64,
    pub post_type: String,
    pub message_type: Option<String>,
    pub sub_type: Option<String>,
    pub message_id: Option<i64>,
    pub user_id: Option<i64>,
    pub group_id: Option<i64>,
    pub message: Option<String>,
    pub raw_message: Option<String>,
    pub sender: Option<Sender>,
    pub raw: Option<RawPayload>,
    pub request_type: Option<String>,
    pub comment: Option<String>,
    pub flag: Option<String>,
}

/// What a sender is, as plain values.
pub struct SenderView {
    pub user_id: int,
    pub nickname: Seq<char>,
    pub card: Seq<char>,
}

impl View for Sender {
    type V = SenderView;

    open spec fn view(&self) -> SenderView {
        SenderView { user_id: self.user_id as int, nickname: self.nickname@, card: self.card@ }
    }
}

/// What a published API answer is, as plain values.
pub struct EnvelopeView {
    pub status: Seq<char>,
    pub retcode: int,
    pub data: serde_json::Value,
    pub message: Seq<char>,
    pub echo: Seq<char>,
    pub action: Option<Seq<char>>,
}

impl View for ResponseEnvelope {
    type V = EnvelopeView;

    open spec fn view(&self) -> EnvelopeView {
        EnvelopeView {
            status: self.status@,
            retcode: self.retcode as int,
            data: self.data,
            message: self.message@,
            echo: self.echo@,
            action: opt_text(self.action),
        }
    }
}

/// What a structured payload is, as plain values.
pub enum RawPayloadView {
    Event(serde_json::Value),
    Response(EnvelopeView),
}

impl View for RawPayload {
    type V = RawPayloadView;

    open spec fn view(&self) -> RawPayloadView {
        match self {
            RawPayload::Event(doc) => RawPayloadView::Event(*doc),
            RawPayload::Response(envelope) => RawPayloadView::Response(envelope@),
        }
    }
}

/// What a published event is, as plain values.
pub struct EventView {
    pub time: int,
    pub self_id: int,
    pub post_type: Seq<char>,
    pub message_type: Option<Seq<char>>,
    pub sub_type: Option<Seq<char>>,
    pub message_id: Option<int>,
    pub user_id: Option<int>,
    pub group_id: Option<int>,
    pub message: Option<Seq<char>>,
    pub raw_message: Option<Seq<char>>,
    pub sender: Option<SenderView>,
    pub raw: Option<RawPayloadView>,
    pub request_type: Option<Seq<char>>,
    pub comment: Option<Seq<char>>,
    pub flag: Option<Seq<char>>,
}

impl View for OneBotMessage {
    type V = EventView;

    open spec fn view(&self) -> EventView {
        EventView {
            time: self.time as int,
            self_id: self.self_id as int,
            post_type: self.post_type@,
            message_type: opt_text(self.message_type),
            sub_type: opt_text(self.sub_type),
            message_id: opt_int(self.message_id),
            user_id: opt_int(self.user_id),
            group_id: opt_int(self.group_id),
            message: opt_text(self.message),
            raw_message: opt_text(self.raw_message),
            sender: match self.sender {
                Some(sender) => Some(sender@),
                None => None,
            },
            raw: match self.raw {
                Some(raw) => Some(raw@),
                None => None,
            },
            request_type: opt_text(self.request_type),
            comment: opt_text(self.comment),
            flag: opt_text(self.flag),
        }
    }
}

/// What an optional published event is, as plain values.
pub open spec fn opt_event(o: Option<OneBotMessage>) -> Option<EventView> {
    match o {
        Some(event) => Some(event@),
        None => None,
    }
}

/// The CQ-code rendering of one segment.
pub open spec fn segment_cqcode(segment: MessageData) -> Seq<char> {
    match segment {
        MessageData::Text { text } => text@,
        MessageData::Image { file, sub_type, url } => {
            "[CQ:image"@ + (if file@.len() > 0 {
                ",file="@ + file@
            } else {
                Seq::<char>::empty()
            }) + (if url@.len() > 0 {
                ",url="@ + url@
            } else {
                Seq::<char>::empty()
            }) + ",sub_type="@ + decimal_text(sub_type as int) + "]"@
        },
        MessageData::Face { id } => "[CQ:face,id="@ + id@ + "]"@,
        MessageData::At { qq } => "[CQ:at,qq="@ + qq@ + "]"@,
        MessageData::Other => Seq::<char>::empty(),
    }
}

/// The CQ-code rendering of a run of segments: the renderings in order.
pub open spec fn segments_cqcode(segments: Seq<MessageData>) -> Seq<char>
    decreases segments.len(),
{
    if segments.len() == 0 {
        Seq::<char>::empty()
    } else {
        segments_cqcode(segments.drop_last()) + segment_cqcode(segments.last())
    }
}

fn append_segment(out: &mut String, segment: &MessageData)
    ensures
        final(out)@ == old(out)@ + segment_cqcode(*segment),
{
    match segment {
        MessageData::Text { text } => {
            out.append(text.as_str());
        },
        MessageData::Image { file, sub_type, url } => {
            out.append("[CQ:image");
            if !file.as_str().is_empty() {
                out.append(",file=");
                out.append(file.as_str());
            }
            if !url.as_str().is_empty() {
                out.append(",url=");
                out.append(url.as_str());
            }
            out.append(",sub_type=");
            append_decimal(out, *sub_type);
            out.append("]");
        },
        MessageData::Face { id } => {
            out.append("[CQ:face,id=");
            out.append(id.as_str());
            out.append("]");
        },
        MessageData::At { qq } => {
            out.append("[CQ:at,qq=");
            out.append(qq.as_str());
            out.append("]");
        },
        MessageData::Other => {},
    }
    assert(out@ =~= old(out)@ + segment_cqcode(*segment));
}

/// Renders a message's segments as CQ-code text: plain text as it is, an
/// image, a face and a mention each as a bracketed code, anything else as
/// nothing.
pub fn message_to_cqcode(message: &Message) -> (result: String)
    ensures
        result@ == segments_cqcode(message.message@),
{
    let mut result = String::new();
    let mut i: usize = 0;
    while i < message.message.len()
        invariant
            i <= message.message.len(),
            result@ == segments_cqcode(message.message@.subrange(0, i as int)),
        decreases message.message.len() - i,
    {
        append_segment(&mut result, &message.message[i]);
        proof {
            let next = message.message@.subrange(0, i + 1);
            assert(next.drop_last() =~= message.message@.subrange(0, i as int));
        }
        i += 1;
    }
    assert(message.message@.subrange(0, i as int) =~= message.message@);
    result
}

} // verus!
