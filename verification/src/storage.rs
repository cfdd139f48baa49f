//! The local mirror store: chat history and relationship requests of one
//! account, with a full-text index that is kept through a shadow table of
//! surrogate ids.
//!
//! The three tables of the message side are written one after the other and
//! never as one transaction. Well-formedness therefore says nothing of how
//! they agree: it only says that each table's keys occur once. A write to a
//! local id brings the three into agreement for that id, whatever it found.

use vstd::prelude::*;
use vstd::string::*;
use crate::json::{
    get_integer, get_string, json_document, json_integers, json_strings, parse_document,
};
use crate::records::{
    opt_int, IndexEntry, IndexRow, MessageRow, RelationshipRequest, RequestRow, ShadowEntry,
    ShadowRow, StoredMessage,
};
use crate::rows::{
    distinct_by, first_where, lemma_picked_views, lemma_push_distinct, lemma_replace_distinct,
    select, views,
};

verus! {

/// A required member that a payload lacks.
#[derive(Clone, Copy, Debug, PartialEq, Eq)]
pub enum Field {
    LocalMessageId,
    Time,
    PostType,
    Id,
    RequestType,
    UserId,
    UserName,
    Flag,
}

/// Why the store refused a command.
#[derive(Clone, Copy, Debug, PartialEq, Eq)]
pub enum StoreError {
    /// The payload is no JSON document.
    InvalidJson,
    /// The payload lacks a required member, or holds it with another type.
    MissingField(Field),
    /// No surrogate id is left for the full-text index.
    ShadowFull,
    /// A patched payload could not be written back as text.
    Serialize,
    /// The full-text engine refused the query.
    Search,
}

/// The name of a required member, as the payload spells it.
pub open spec fn field_name(field: Field) -> Seq<char> {
    match field {
        Field::LocalMessageId => "localMessageId"@,
        Field::Time => "time"@,
        Field::PostType => "post_type"@,
        Field::Id => "id"@,
        Field::RequestType => "request_type"@,
        Field::UserId => "user_id"@,
        Field::UserName => "user_name"@,
        Field::Flag => "flag"@,
    }
}

/// The message shown for an error.
pub open spec fn error_text(error: StoreError) -> Seq<char> {
    match error {
        StoreError::InvalidJson => "解析 JSON 失败"@,
        StoreError::MissingField(field) => "缺少 "@ + field_name(field) + " 字段"@,
        StoreError::ShadowFull => "插入 rowid 映射失败"@,
        StoreError::Serialize => "序列化消息数据失败"@,
        StoreError::Search => "执行搜索失败"@,
    }
}

impl Field {
    /// The name of the member, as the payload spells it.
    pub fn name(&self) -> (r: &'static str)
        ensures
            r@ == field_name(*self),
    {
        match self {
            Field::LocalMessageId => "localMessageId",
            Field::Time => "time",
            Field::PostType => "post_type",
            Field::Id => "id",
            Field::RequestType => "request_type",
            Field::UserId => "user_id",
            Field::UserName => "user_name",
            Field::Flag => "flag",
        }
    }
}

impl StoreError {
    /// The message shown for the error.
    pub fn message(&self) -> (r: String)
        ensures
            r@ == error_text(*self),
    {
        match self {
            StoreError::InvalidJson => "解析 JSON 失败".to_owned(),
            StoreError::MissingField(field) => {
                let mut text = "缺少 ".to_owned();
                text.append(field.name());
                text.append(" 字段");
                text
            },
            StoreError::ShadowFull => "插入 rowid 映射失败".to_owned(),
            StoreError::Serialize => "序列化消息数据失败".to_owned(),
            StoreError::Search => "执行搜索失败".to_owned(),
        }
    }
}

/// What the store holds, as plain values.
pub struct StoreModel {
    pub messages: Seq<MessageRow>,
    pub shadow: Seq<ShadowRow>,
    /// The surrogate id that the next shadow entry gets.
    pub next_rowid: int,
    pub index: Seq<IndexRow>,
    pub requests: Seq<RequestRow>,
}

/// A message's key: its local id.
pub open spec fn message_key() -> spec_fn(MessageRow) -> Seq<char> {
    |row: MessageRow| row.local_message_id
}

/// A shadow entry's key: its surrogate id.
pub open spec fn shadow_key() -> spec_fn(ShadowRow) -> int {
    |row: ShadowRow| row.rowid
}

/// A shadow entry's second key: the local id it stands for.
pub open spec fn shadow_owner() -> spec_fn(ShadowRow) -> Seq<char> {
    |row: ShadowRow| row.local_message_id
}

/// An index entry's key: its surrogate id.
pub open spec fn index_key() -> spec_fn(IndexRow) -> int {
    |row: IndexRow| row.rowid
}

/// A request's key: its id.
pub open spec fn request_key() -> spec_fn(RequestRow) -> Seq<char> {
    |row: RequestRow| row.id
}

/// A request's second key: the peer and, where there is one, the group.
pub open spec fn request_pair() -> spec_fn(RequestRow) -> (int, Option<int>) {
    |row: RequestRow| (row.user_id, row.group_id)
}

/// Each table's keys occur once, and every surrogate id in use was handed
/// out before.
pub open spec fn store_wf(m: StoreModel) -> bool {
    &&& distinct_by(m.messages, message_key())
    &&& distinct_by(m.shadow, shadow_key())
    &&& distinct_by(m.shadow, shadow_owner())
    &&& distinct_by(m.index, index_key())
    &&& distinct_by(m.requests, request_key())
    &&& distinct_by(m.requests, request_pair())
    &&& 1 <= m.next_rowid <= i64::MAX
    &&& forall|i: int| 0 <= i < m.shadow.len() ==> 1 <= (#[trigger] m.shadow[i]).rowid < m.next_rowid
}

/// The rows with another local id than `id`.
pub open spec fn other_message(id: Seq<char>) -> spec_fn(MessageRow) -> bool {
    |row: MessageRow| row.local_message_id != id
}

/// The shadow entries that stand for another local id than `id`.
pub open spec fn other_owner(id: Seq<char>) -> spec_fn(ShadowRow) -> bool {
    |row: ShadowRow| row.local_message_id != id
}

/// The index entries with another surrogate id than `rowid`.
pub open spec fn other_rowid(rowid: int) -> spec_fn(IndexRow) -> bool {
    |row: IndexRow| row.rowid != rowid
}

/// The surrogate id that stands for the local id `id`, if one was allocated.
pub open spec fn rowid_of(shadow: Seq<ShadowRow>, id: Seq<char>) -> Option<int>
    decreases shadow.len(),
{
    if shadow.len() == 0 {
        None
    } else {
        match rowid_of(shadow.drop_last(), id) {
            Some(rowid) => Some(rowid),
            None => if shadow.last().local_message_id == id {
                Some(shadow.last().rowid)
            } else {
                None
            },
        }
    }
}

/// The index entries with the surrogate id `rowid`.
pub open spec fn has_rowid(rowid: int) -> spec_fn(IndexRow) -> bool {
    |row: IndexRow| row.rowid == rowid
}

/// The index entry with the surrogate id `rowid`, if there is one.
pub open spec fn entry_of(index: Seq<IndexRow>, rowid: int) -> Option<IndexRow> {
    first_where(index, has_rowid(rowid))
}

/// The index entry through which the message `id` is found by a search: the
/// one keyed by the message's surrogate id. Without a shadow entry, or without
/// an index entry for it, the message is not found.
pub open spec fn indexed_entry(m: StoreModel, id: Seq<char>) -> Option<IndexRow> {
    match rowid_of(m.shadow, id) {
        Some(rowid) => entry_of(m.index, rowid),
        None => None,
    }
}

/// The first step of a save: the row replaces whatever row had its local id.
pub open spec fn upserted(m: StoreModel, row: MessageRow) -> StoreModel {
    StoreModel {
        messages: m.messages.filter(other_message(row.local_message_id)).push(row),
        ..m
    }
}

/// The second step of a save: the local id gets a surrogate id, unless it
/// has one.
pub open spec fn with_shadow(m: StoreModel, id: Seq<char>) -> StoreModel {
    if rowid_of(m.shadow, id) is Some {
        m
    } else {
        StoreModel {
            shadow: m.shadow.push(ShadowRow { rowid: m.next_rowid, local_message_id: id }),
            next_rowid: m.next_rowid + 1,
            ..m
        }
    }
}

/// The text or, where there is none, the empty text.
pub open spec fn text_or_empty(o: Option<Seq<char>>) -> Seq<char> {
    match o {
        Some(text) => text,
        None => Seq::empty(),
    }
}

/// The number or, where there is none, zero.
pub open spec fn int_or_zero(o: Option<int>) -> int {
    match o {
        Some(n) => n,
        None => 0,
    }
}

/// The index entry that a message is found by, under the surrogate id
/// `rowid`.
pub open spec fn index_row_for(rowid: int, row: MessageRow) -> IndexRow {
    IndexRow {
        rowid,
        content: text_or_empty(row.content),
        raw_message: text_or_empty(row.raw_message),
        user_id: int_or_zero(row.user_id),
        group_id: int_or_zero(row.group_id),
        post_type: row.post_type,
    }
}

/// The third step of a save: the index entry under `rowid` is deleted and a
/// new one is written for `row`.
pub open spec fn reindexed(m: StoreModel, rowid: int, row: MessageRow) -> StoreModel {
    StoreModel { index: m.index.filter(other_rowid(rowid)).push(index_row_for(rowid, row)), ..m }
}

/// Whether a surrogate id can be had for `id`: it has one, or one is left.
pub open spec fn shadow_available(m: StoreModel, id: Seq<char>) -> bool {
    rowid_of(m.shadow, id) is Some || m.next_rowid < i64::MAX
}

/// The store after a save of `row`: the three steps in order.
pub open spec fn saved(m: StoreModel, row: MessageRow) -> StoreModel {
    let shadowed = with_shadow(upserted(m, row), row.local_message_id);
    reindexed(shadowed, rowid_of(shadowed.shadow, row.local_message_id)->0, row)
}

/// The member of `members` under `key`, if it has one.
pub open spec fn member<V>(members: Map<Seq<char>, V>, key: Seq<char>) -> Option<V> {
    if members.contains_key(key) {
        Some(members[key])
    } else {
        None
    }
}

/// The row that a message payload describes: its local id, time and category
/// are required, the rest is taken where it is there. The payload's own text
/// is kept whole, and the row is not recalled.
pub open spec fn message_of(doc: serde_json::Value, data: Seq<char>) -> Result<
    MessageRow,
    StoreError,
> {
    let texts = json_strings(doc);
    let numbers = json_integers(doc);
    if !texts.contains_key("localMessageId"@) {
        Err(StoreError::MissingField(Field::LocalMessageId))
    } else if !numbers.contains_key("time"@) {
        Err(StoreError::MissingField(Field::Time))
    } else if !texts.contains_key("post_type"@) {
        Err(StoreError::MissingField(Field::PostType))
    } else {
        Ok(
            MessageRow {
                local_message_id: texts["localMessageId"@],
                timestamp: numbers["time"@],
                post_type: texts["post_type"@],
                message_type: member(texts, "message_type"@),
                user_id: member(numbers, "user_id"@),
                group_id: member(numbers, "group_id"@),
                message_id: member(numbers, "message_id"@),
                content: member(texts, "message"@),
                raw_message: member(texts, "raw_message"@),
                data,
                recalled: false,
            },
        )
    }
}

/// The row that a message payload, given as text, describes.
pub open spec fn parsed_message(data: Seq<char>) -> Result<MessageRow, StoreError> {
    match json_document(data) {
        Some(doc) => message_of(doc, data),
        None => Err(StoreError::InvalidJson),
    }
}

/// What a parsed message is, as plain values.
pub open spec fn message_result(r: Result<StoredMessage, StoreError>) -> Result<
    MessageRow,
    StoreError,
> {
    match r {
        Ok(message) => Ok(message@),
        Err(error) => Err(error),
    }
}

/// Reads the row that a parsed message payload describes. `message_data` is
/// the payload's own text, which the row keeps.
pub fn message_from_document(doc: &serde_json::Value, message_data: &str) -> (r: Result<
    StoredMessage,
    StoreError,
>)
    ensures
        message_result(r) == message_of(*doc, message_data@),
{
    let local_message_id = match get_string(doc, "localMessageId") {
        Some(id) => id,
        None => {
            return Err(StoreError::MissingField(Field::LocalMessageId));
        },
    };
    let timestamp = match get_integer(doc, "time") {
        Some(time) => time,
        None => {
            return Err(StoreError::MissingField(Field::Time));
        },
    };
    let post_type = match get_string(doc, "post_type") {
        Some(post_type) => post_type,
        None => {
            return Err(StoreError::MissingField(Field::PostType));
        },
    };
    let message = StoredMessage {
        local_message_id,
        timestamp,
        post_type,
        message_type: get_string(doc, "message_type"),
        user_id: get_integer(doc, "user_id"),
        group_id: get_integer(doc, "group_id"),
        message_id: get_integer(doc, "message_id"),
        content: get_string(doc, "message"),
        raw_message: get_string(doc, "raw_message"),
        data: message_data.to_owned(),
        recalled: false,
    };
    Ok(message)
}

/// Reads the row that a message payload describes.
pub fn parse_message(message_data: &str) -> (r: Result<StoredMessage, StoreError>)
    ensures
        message_result(r) == parsed_message(message_data@),
{
    match parse_document(message_data) {
        Some(doc) => message_from_document(&doc, message_data),
        None => Err(StoreError::InvalidJson),
    }
}

/// The local mirror of one account.
#[derive(Clone, Debug, PartialEq)]
pub struct MirrorStore {
    pub messages: Vec<StoredMessage>,
    pub shadow: Vec<ShadowEntry>,
    pub next_rowid: i64,
    pub index: Vec<IndexEntry>,
    pub requests: Vec<RelationshipRequest>,
}

impl View for MirrorStore {
    type V = StoreModel;

    open spec fn view(&self) -> StoreModel {
        StoreModel {
            messages: views(self.messages@),
            shadow: views(self.shadow@),
            next_rowid: self.next_rowid as int,
            index: views(self.index@),
            requests: views(self.requests@),
        }
    }
}

pub(crate) fn mask_other_message(items: &Vec<StoredMessage>, id: &String) -> (keep: Vec<bool>)
    ensures
        keep.len() == items.len(),
        forall|i: int|
            0 <= i < items.len() ==> keep[i] == other_message(id@)(#[trigger] items[i]@),
{
    let mut keep: Vec<bool> = Vec::new();
    let mut i: usize = 0;
    while i < items.len()
        invariant
            i <= items.len(),
            keep.len() == i,
            forall|j: int| 0 <= j < i ==> keep[j] == other_message(id@)(#[trigger] items[j]@),
        decreases items.len() - i,
    {
        keep.push(!(items[i].local_message_id == *id));
        i += 1;
    }
    keep
}

pub(crate) fn mask_other_owner(items: &Vec<ShadowEntry>, id: &String) -> (keep: Vec<bool>)
    ensures
        keep.len() == items.len(),
        forall|i: int| 0 <= i < items.len() ==> keep[i] == other_owner(id@)(#[trigger] items[i]@),
{
    let mut keep: Vec<bool> = Vec::new();
    let mut i: usize = 0;
    while i < items.len()
        invariant
            i <= items.len(),
            keep.len() == i,
            forall|j: int| 0 <= j < i ==> keep[j] == other_owner(id@)(#[trigger] items[j]@),
        decreases items.len() - i,
    {
        keep.push(!(items[i].local_message_id == *id));
        i += 1;
    }
    keep
}

pub(crate) fn mask_other_rowid(items: &Vec<IndexEntry>, rowid: i64) -> (keep: Vec<bool>)
    ensures
        keep.len() == items.len(),
        forall|i: int|
            0 <= i < items.len() ==> keep[i] == other_rowid(rowid as int)(#[trigger] items[i]@),
{
    let mut keep: Vec<bool> = Vec::new();
    let mut i: usize = 0;
    while i < items.len()
        invariant
            i <= items.len(),
            keep.len() == i,
            forall|j: int|
                0 <= j < i ==> keep[j] == other_rowid(rowid as int)(#[trigger] items[j]@),
        decreases items.len() - i,
    {
        keep.push(items[i].rowid != rowid);
        i += 1;
    }
    keep
}

/// A found shadow entry is one of the entries.
pub proof fn lemma_rowid_of(shadow: Seq<ShadowRow>, id: Seq<char>)
    ensures
        rowid_of(shadow, id) is Some ==> exists|i: int|
            0 <= i < shadow.len() && (#[trigger] shadow[i]).local_message_id == id && shadow[i].rowid
                == rowid_of(shadow, id)->0,
        rowid_of(shadow, id) is None ==> forall|i: int|
            0 <= i < shadow.len() ==> (#[trigger] shadow[i]).local_message_id != id,
    decreases shadow.len(),
{
    if shadow.len() > 0 {
        lemma_rowid_of(shadow.drop_last(), id);
        if rowid_of(shadow.drop_last(), id) is Some {
            let i = choose|i: int|
                0 <= i < shadow.drop_last().len() && (#[trigger] shadow.drop_last()[i]).local_message_id
                    == id && shadow.drop_last()[i].rowid == rowid_of(shadow.drop_last(), id)->0;
            assert(shadow[i] == shadow.drop_last()[i]);
        } else {
            assert forall|i: int| 0 <= i < shadow.len() - 1 implies (#[trigger] shadow[i]).local_message_id
                != id by {
                assert(shadow[i] == shadow.drop_last()[i]);
            }
            if shadow.last().local_message_id == id {
                assert(shadow[shadow.len() - 1] == shadow.last());
            }
        }
    }
}

impl MirrorStore {
    /// Whether each table's keys occur once.
    pub open spec fn wf(&self) -> bool {
        store_wf(self@)
    }

    /// An empty store.
    pub fn new() -> (r: MirrorStore)
        ensures
            r.wf(),
            r@ == (StoreModel {
                messages: Seq::empty(),
                shadow: Seq::empty(),
                next_rowid: 1,
                index: Seq::empty(),
                requests: Seq::empty(),
            }),
    {
        let r = MirrorStore {
            messages: Vec::new(),
            shadow: Vec::new(),
            next_rowid: 1,
            index: Vec::new(),
            requests: Vec::new(),
        };
        assert(r@.messages =~= Seq::empty());
        assert(r@.shadow =~= Seq::empty());
        assert(r@.index =~= Seq::empty());
        assert(r@.requests =~= Seq::empty());
        r
    }

    /// The first step of a save: writes `row` in place of whatever row had
    /// its local id.
    pub fn upsert_row(&mut self, row: StoredMessage)
        requires
            old(self).wf(),
        ensures
            final(self).wf(),
            final(self)@ == upserted(old(self)@, row@),
    {
        let keep = mask_other_message(&self.messages, &row.local_message_id);
        let mut rows = select(&self.messages, &keep);
        proof {
            let pred = other_message(row@.local_message_id);
            lemma_picked_views(self.messages@, keep@, pred);
            lemma_replace_distinct(views(self.messages@), row@, pred, message_key());
            assert(views(rows@.push(row)) =~= views(rows@).push(row@));
        }
        rows.push(row);
        self.messages = rows;
    }

    /// The surrogate id that stands for the local id `id`, if one was
    /// allocated.
    pub fn lookup_rowid(&self, id: &String) -> (r: Option<i64>)
        ensures
            opt_int(r) == rowid_of(self@.shadow, id@),
    {
        let mut i: usize = 0;
        while i < self.shadow.len()
            invariant
                i <= self.shadow.len(),
                rowid_of(views(self.shadow@).subrange(0, i as int), id@) is None,
            decreases self.shadow.len() - i,
        {
            proof {
                let next = views(self.shadow@).subrange(0, i + 1);
                assert(next.drop_last() =~= views(self.shadow@).subrange(0, i as int));
                assert(next.last() == self.shadow@[i as int]@);
            }
            if self.shadow[i].local_message_id == *id {
                proof {
                    lemma_rowid_prefix(views(self.shadow@), id@, i + 1);
                }
                return Some(self.shadow[i].rowid);
            }
            i += 1;
        }
        proof {
            assert(views(self.shadow@).subrange(0, i as int) =~= views(self.shadow@));
        }
        None
    }

    /// The second step of a save: makes sure that the local id `id` has a
    /// surrogate id and returns it. An id that has one keeps it; a new one is
    /// the next in line. Where none is left nothing changes and the save
    /// fails.
    pub fn ensure_shadow(&mut self, id: &String) -> (r: Result<i64, StoreError>)
        requires
            old(self).wf(),
        ensures
            final(self).wf(),
            r is Ok <==> shadow_available(old(self)@, id@),
            r is Ok ==> final(self)@ == with_shadow(old(self)@, id@) && Some(r.unwrap() as int)
                == rowid_of(final(self)@.shadow, id@),
            r is Err ==> r == Err::<i64, StoreError>(StoreError::ShadowFull) && *final(self) == *old(
                self,
            ),
    {
        match self.lookup_rowid(id) {
            Some(rowid) => Ok(rowid),
            None => {
                if self.next_rowid == i64::MAX {
                    return Err(StoreError::ShadowFull);
                }
                let rowid = self.next_rowid;
                let entry = ShadowEntry { rowid, local_message_id: id.clone() };
                proof {
                    let before = views(self.shadow@);
                    lemma_rowid_of(before, id@);
                    assert(views(self.shadow@.push(entry)) =~= before.push(entry@));
                    lemma_push_distinct(before, entry@, shadow_key());
                    lemma_push_distinct(before, entry@, shadow_owner());
                    assert(before.push(entry@).drop_last() =~= before);
                }
                self.shadow.push(entry);
                self.next_rowid = rowid + 1;
                Ok(rowid)
            },
        }
    }

    /// The third step of a save: deletes the index entry under `rowid` and
    /// writes a new one for `row`.
    pub fn reindex(&mut self, rowid: i64, row: &StoredMessage)
        requires
            old(self).wf(),
        ensures
            final(self).wf(),
            final(self)@ == reindexed(old(self)@, rowid as int, row@),
    {
        let entry = IndexEntry {
            rowid,
            content: match &row.content {
                Some(text) => text.clone(),
                None => String::new(),
            },
            raw_message: match &row.raw_message {
                Some(text) => text.clone(),
                None => String::new(),
            },
            user_id: match row.user_id {
                Some(id) => id,
                None => 0,
            },
            group_id: match row.group_id {
                Some(id) => id,
                None => 0,
            },
            post_type: row.post_type.clone(),
        };
        assert(entry@ == index_row_for(rowid as int, row@));
        let keep = mask_other_rowid(&self.index, rowid);
        let mut entries = select(&self.index, &keep);
        proof {
            let pred = other_rowid(rowid as int);
            lemma_picked_views(self.index@, keep@, pred);
            lemma_replace_distinct(views(self.index@), entry@, pred, index_key());
            assert(views(entries@.push(entry)) =~= views(entries@).push(entry@));
        }
        entries.push(entry);
        self.index = entries;
    }

    /// Saves a message: the row first, then its surrogate id, then its index
    /// entry. The steps are not one transaction: where no surrogate id is left
    /// the row has been written all the same, and the save fails.
    pub fn save_row(&mut self, row: StoredMessage) -> (r: Result<String, StoreError>)
        requires
            old(self).wf(),
        ensures
            final(self).wf(),
            r is Ok <==> shadow_available(upserted(old(self)@, row@), row@.local_message_id),
            r is Ok ==> r.unwrap()@ == row@.local_message_id && final(self)@ == saved(
                old(self)@,
                row@,
            ),
            r is Err ==> r == Err::<String, StoreError>(StoreError::ShadowFull) && final(self)@
                == upserted(old(self)@, row@),
    {
        let id = row.local_message_id.clone();
        let copy = row.duplicate();
        self.upsert_row(row);
        match self.ensure_shadow(&id) {
            Ok(rowid) => {
                self.reindex(rowid, &copy);
                Ok(id)
            },
            Err(error) => Err(error),
        }
    }
}

/// A surrogate id found among the first `n` entries is the one found among
/// all.
pub proof fn lemma_rowid_prefix(shadow: Seq<ShadowRow>, id: Seq<char>, n: int)
    requires
        0 <= n <= shadow.len(),
        rowid_of(shadow.subrange(0, n), id) is Some,
    ensures
        rowid_of(shadow, id) == rowid_of(shadow.subrange(0, n), id),
    decreases shadow.len() - n,
{
    if n == shadow.len() {
        assert(shadow.subrange(0, n) =~= shadow);
    } else {
        assert(shadow.drop_last().subrange(0, n) =~= shadow.subrange(0, n));
        lemma_rowid_prefix(shadow.drop_last(), id, n);
    }
}

/// Saves the message that `message_data` describes and returns its local id.
/// A payload that is no JSON document, or lacks its local id, time or
/// category, is refused and changes nothing.
pub fn save_message(store: &mut MirrorStore, message_data: &str) -> (r: Result<String, StoreError>)
    requires
        old(store).wf(),
    ensures
        final(store).wf(),
        match parsed_message(message_data@) {
            Err(error) => r == Err::<String, StoreError>(error) && *final(store) == *old(store),
            Ok(row) => if shadow_available(upserted(old(store)@, row), row.local_message_id) {
                r is Ok && r.unwrap()@ == row.local_message_id && final(store)@ == saved(
                    old(store)@,
                    row,
                )
            } else {
                r == Err::<String, StoreError>(StoreError::ShadowFull) && final(store)@
                    == upserted(old(store)@, row)
            },
        },
{
    match parse_message(message_data) {
        Ok(row) => store.save_row(row),
        Err(error) => Err(error),
    }
}

} // verus!
