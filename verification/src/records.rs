//! The rows of the local mirror: stored messages, their full-text shadow and
//! index entries, and relationship requests.

use vstd::prelude::*;
use vstd::string::*;
use crate::rows::Duplicate;
use crate::text::{clone_opt, opt_text};

verus! {

/// A mirrored message, keyed by its client-assigned local id.
#[derive(Clone, Debug, PartialEq)]
pub struct StoredMessage {
    pub local_message_id: String,
    pub timestamp: i64,
    pub post_type: String,
    pub message_type: Option<String>,
    pub user_id: Option<i64>,
    pub group_id: Option<i64>,
    /// The remote message id; it may arrive after the row exists.
    pub message_id: Option<i64>,
    pub content: Option<String>,
    pub raw_message: Option<String>,
    /// The full raw payload, as JSON text.
    pub data: String,
    pub recalled: bool,
}

/// What a stored message is, as plain values.
pub struct MessageRow {
    pub local_message_id: Seq<char>,
    pub timestamp: int,
    pub post_type: Seq<char>,
    pub message_type: Option<Seq<char>>,
    pub user_id: Option<int>,
    pub group_id: Option<int>,
    pub message_id: Option<int>,
    pub content: Option<Seq<char>>,
    pub raw_message: Option<Seq<char>>,
    pub data: Seq<char>,
    pub recalled: bool,
}

/// An optional machine integer as an optional mathematical one.
pub open spec fn opt_int(o: Option<i64>) -> Option<int> {
    match o {
        Some(n) => Some(n as int),
        None => None,
    }
}

impl View for StoredMessage {
    type V = MessageRow;

    open spec fn view(&self) -> MessageRow {
        MessageRow {
            local_message_id: self.local_message_id@,
            timestamp: self.timestamp as int,
            post_type: self.post_type@,
            message_type: opt_text(self.message_type),
            user_id: opt_int(self.user_id),
            group_id: opt_int(self.group_id),
            message_id: opt_int(self.message_id),
            content: opt_text(self.content),
            raw_message: opt_text(self.raw_message),
            data: self.data@,
            recalled: self.recalled,
        }
    }
}

/// What an optional stored message is, as plain values.
pub open spec fn opt_message(o: Option<StoredMessage>) -> Option<MessageRow> {
    match o {
        Some(message) => Some(message@),
        None => None,
    }
}

impl StoredMessage {
    /// A copy of the row.
    pub fn duplicate(&self) -> (r: StoredMessage)
        ensures
            r == *self,
    {
        StoredMessage {
            local_message_id: self.local_message_id.clone(),
            timestamp: self.timestamp,
            post_type: self.post_type.clone(),
            message_type: clone_opt(&self.message_type),
            user_id: self.user_id,
            group_id: self.group_id,
            message_id: self.message_id,
            content: clone_opt(&self.content),
            raw_message: clone_opt(&self.raw_message),
            data: self.data.clone(),
            recalled: self.recalled,
        }
    }
}

impl Duplicate for StoredMessage {
    fn copy_of(&self) -> (r: StoredMessage) {
        self.duplicate()
    }
}

/// The stable surrogate id of a message in the full-text index.
#[derive(Clone, Debug, PartialEq)]
pub struct ShadowEntry {
    pub rowid: i64,
    pub local_message_id: String,
}

/// What a shadow entry is, as plain values.
pub struct ShadowRow {
    pub rowid: int,
    pub local_message_id: Seq<char>,
}

impl View for ShadowEntry {
    type V = ShadowRow;

    open spec fn view(&self) -> ShadowRow {
        ShadowRow { rowid: self.rowid as int, local_message_id: self.local_message_id@ }
    }
}

impl Duplicate for ShadowEntry {
    fn copy_of(&self) -> (r: ShadowEntry) {
        ShadowEntry { rowid: self.rowid, local_message_id: self.local_message_id.clone() }
    }
}

/// One row of the full-text index, keyed by a surrogate id.
#[derive(Clone, Debug, PartialEq)]
pub struct IndexEntry {
    pub rowid: i64,
    pub content: String,
    pub raw_message: String,
    pub user_id: i64,
    pub group_id: i64,
    pub post_type: String,
}

/// What an index entry is, as plain values.
pub struct IndexRow {
    pub rowid: int,
    pub content: Seq<char>,
    pub raw_message: Seq<char>,
    pub user_id: int,
    pub group_id: int,
    pub post_type: Seq<char>,
}

impl View for IndexEntry {
    type V = IndexRow;

    open spec fn view(&self) -> IndexRow {
        IndexRow {
            rowid: self.rowid as int,
            content: self.content@,
            raw_message: self.raw_message@,
            user_id: self.user_id as int,
            group_id: self.group_id as int,
            post_type: self.post_type@,
        }
    }
}

impl Duplicate for IndexEntry {
    fn copy_of(&self) -> (r: IndexEntry) {
        IndexEntry {
            rowid: self.rowid,
            content: self.content.clone(),
            raw_message: self.raw_message.clone(),
            user_id: self.user_id,
            group_id: self.group_id,
            post_type: self.post_type.clone(),
        }
    }
}

/// A pending or resolved request to become a friend or to join a group.
#[derive(Clone, Debug, PartialEq)]
pub struct RelationshipRequest {
    pub id: String,
    pub timestamp: i64,
    pub request_type: String,
    pub sub_type: Option<String>,
    pub user_id: i64,
    pub user_name: String,
    pub nickname: Option<String>,
    pub comment: String,
    /// The opaque token needed to act on the request.
    pub flag: String,
    pub group_id: Option<i64>,
    pub group_name: Option<String>,
    pub status: String,
    pub is_read: bool,
}

/// What a relationship request is, as plain values.
pub struct RequestRow {
    pub id: Seq<char>,
    pub timestamp: int,
    pub request_type: Seq<char>,
    pub sub_type: Option<Seq<char>>,
    pub user_id: int,
    pub user_name: Seq<char>,
    pub nickname: Option<Seq<char>>,
    pub comment: Seq<char>,
    pub flag: Seq<char>,
    pub group_id: Option<int>,
    pub group_name: Option<Seq<char>>,
    pub status: Seq<char>,
    pub is_read: bool,
}

impl View for RelationshipRequest {
    type V = RequestRow;

    open spec fn view(&self) -> RequestRow {
        RequestRow {
            id: self.id@,
            timestamp: self.timestamp as int,
            request_type: self.request_type@,
            sub_type: opt_text(self.sub_type),
            user_id: self.user_id as int,
            user_name: self.user_name@,
            nickname: opt_text(self.nickname),
            comment: self.comment@,
            flag: self.flag@,
            group_id: opt_int(self.group_id),
            group_name: opt_text(self.group_name),
            status: self.status@,
            is_read: self.is_read,
        }
    }
}

/// What an optional request is, as plain values.
pub open spec fn opt_request(o: Option<RelationshipRequest>) -> Option<RequestRow> {
    match o {
        Some(request) => Some(request@),
        None => None,
    }
}

impl RelationshipRequest {
    /// A copy of the request.
    pub fn duplicate(&self) -> (r: RelationshipRequest)
        ensures
            r == *self,
    {
        RelationshipRequest {
            id: self.id.clone(),
            timestamp: self.timestamp,
            request_type: self.request_type.clone(),
            sub_type: clone_opt(&self.sub_type),
            user_id: self.user_id,
            user_name: self.user_name.clone(),
            nickname: clone_opt(&self.nickname),
            comment: self.comment.clone(),
            flag: self.flag.clone(),
            group_id: self.group_id,
            group_name: clone_opt(&self.group_name),
            status: self.status.clone(),
            is_read: self.is_read,
        }
    }
}

impl Duplicate for RelationshipRequest {
    fn copy_of(&self) -> (r: RelationshipRequest) {
        self.duplicate()
    }
}

} // verus!
