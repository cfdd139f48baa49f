//! The message side of the mirror beyond saving: patching rows once the
//! remote counterpart has answered, recalls, listing, searching, deleting and
//! trimming.

use vstd::prelude::*;
use vstd::string::*;
use crate::fts::{accepts, entry_matches, match_entry, query_accepted};
use crate::json::{
    insert_bool, insert_integer, insert_string, is_object, json_document, json_is_object,
    json_text, json_with_bool, json_with_integer, json_with_string, parse_document, to_text,
};
use crate::records::{
    IndexEntry,
    MessageRow,
    opt_int,
    opt_message,
    ShadowRow,
    StoredMessage,
};
use crate::rows::{
    count_marked,
    distinct_by,
    effective_limit,
    effective_offset,
    first_marked,
    first_where,
    lemma_filter_all,
    lemma_filter_distinct,
    lemma_filter_one_out,
    lemma_filter_source,
    lemma_filter_twice,
    lemma_first_where,
    lemma_newest_first,
    lemma_picked_len,
    lemma_picked_views,
    lemma_push_distinct,
    lemma_replace_distinct,
    newest_first,
    order_newest_first,
    page,
    page_bounds,
    select,
    views,
};
use crate::storage::{
    entry_of,
    has_rowid,
    index_key,
    index_row_for,
    indexed_entry,
    lemma_rowid_of,
    mask_other_message,
    mask_other_owner,
    mask_other_rowid,
    message_key,
    MirrorStore,
    other_message,
    other_owner,
    other_rowid,
    reindexed,
    rowid_of,
    saved,
    shadow_available,
    shadow_key,
    shadow_owner,
    store_wf,
    StoreError,
    StoreModel,
    upserted,
    with_shadow,
};
use crate::text::{opt_text, same_text};

verus! {

/// The rows with the local id `id`.
pub open spec fn is_message(id: Seq<char>) -> spec_fn(MessageRow) -> bool {
    |row: MessageRow| row.local_message_id == id
}

/// The rows with the remote id `message_id`.
pub open spec fn has_remote_id(message_id: int) -> spec_fn(MessageRow) -> bool {
    |row: MessageRow| row.message_id == Some(message_id)
}

/// A change to one row.
pub enum Patch {
    /// The remote id has arrived.
    RemoteId(i64),
    /// The raw payload is replaced.
    Payload(String),
    /// The text and the raw text are replaced.
    Content(String, String),
    /// The message was recalled.
    Recall,
}

/// What a change is, as plain values.
pub enum PatchView {
    RemoteId(int),
    Payload(Seq<char>),
    Content(Seq<char>, Seq<char>),
    Recall,
}

impl View for Patch {
    type V = PatchView;

    open spec fn view(&self) -> PatchView {
        match self {
            Patch::RemoteId(id) => PatchView::RemoteId(*id as int),
            Patch::Payload(data) => PatchView::Payload(data@),
            Patch::Content(text, raw) => PatchView::Content(text@, raw@),
            Patch::Recall => PatchView::Recall,
        }
    }
}

/// The row after a change.
pub open spec fn patched(row: MessageRow, patch: PatchView) -> MessageRow {
    match patch {
        PatchView::RemoteId(id) => MessageRow { message_id: Some(id), ..row },
        PatchView::Payload(data) => MessageRow { data, ..row },
        PatchView::Content(text, raw) => MessageRow {
            content: Some(text),
            raw_message: Some(raw),
            ..row
        },
        PatchView::Recall => MessageRow { recalled: true, ..row },
    }
}

/// The rows after the change was made to each row that `hit` selects.
pub open spec fn patched_where(
    rows: Seq<MessageRow>,
    hit: spec_fn(MessageRow) -> bool,
    patch: PatchView,
) -> Seq<MessageRow> {
    rows.map_values(
        |row: MessageRow|
            if hit(row) {
                patched(row, patch)
            } else {
                row
            },
    )
}

/// A patch changes no local id, so the keys stay as they are.
pub proof fn lemma_patch_keeps_keys(
    rows: Seq<MessageRow>,
    hit: spec_fn(MessageRow) -> bool,
    patch: PatchView,
)
    requires
        distinct_by(rows, message_key()),
    ensures
        distinct_by(patched_where(rows, hit, patch), message_key()),
{
    let after = patched_where(rows, hit, patch);
    assert forall|i: int, j: int| 0 <= i < j < after.len() implies message_key()(after[i])
        != message_key()(after[j]) by {
        assert(message_key()(after[i]) == message_key()(rows[i]));
        assert(message_key()(after[j]) == message_key()(rows[j]));
    }
}

fn apply_patch(row: &StoredMessage, patch: &Patch) -> (r: StoredMessage)
    ensures
        r@ == patched(row@, patch@),
{
    let mut copy = row.duplicate();
    match patch {
        Patch::RemoteId(id) => {
            copy.message_id = Some(*id);
        },
        Patch::Payload(data) => {
            copy.data = data.clone();
        },
        Patch::Content(text, raw) => {
            copy.content = Some(text.clone());
            copy.raw_message = Some(raw.clone());
        },
        Patch::Recall => {
            copy.recalled = true;
        },
    }
    copy
}

fn mask_is_message(items: &Vec<StoredMessage>, id: &str) -> (marks: Vec<bool>)
    ensures
        marks.len() == items.len(),
        forall|i: int| 0 <= i < items.len() ==> marks[i] == is_message(id@)(#[trigger] items[i]@),
{
    let mut marks: Vec<bool> = Vec::new();
    let mut i: usize = 0;
    while i < items.len()
        invariant
            i <= items.len(),
            marks.len() == i,
            forall|j: int| 0 <= j < i ==> marks[j] == is_message(id@)(#[trigger] items[j]@),
        decreases items.len() - i,
    {
        marks.push(same_text(items[i].local_message_id.as_str(), id));
        i += 1;
    }
    marks
}

fn mask_has_remote_id(items: &Vec<StoredMessage>, message_id: i64) -> (marks: Vec<bool>)
    ensures
        marks.len() == items.len(),
        forall|i: int|
            0 <= i < items.len() ==> marks[i] == has_remote_id(message_id as int)(
                #[trigger] items[i]@,
            ),
{
    let mut marks: Vec<bool> = Vec::new();
    let mut i: usize = 0;
    while i < items.len()
        invariant
            i <= items.len(),
            marks.len() == i,
            forall|j: int|
                0 <= j < i ==> marks[j] == has_remote_id(message_id as int)(#[trigger] items[j]@),
        decreases items.len() - i,
    {
        let hit = match items[i].message_id {
            Some(id) => id == message_id,
            None => false,
        };
        marks.push(hit);
        i += 1;
    }
    marks
}

/// The payload with the remote id written into it: where the payload is a
/// JSON object, its text after the member `message_id` was set; any other
/// payload stays as it is. `None` where the text cannot be written.
pub open spec fn payload_with_remote_id(data: Seq<char>, message_id: int) -> Option<Seq<char>> {
    match json_document(data) {
        Some(doc) => if json_is_object(doc) {
            json_text(json_with_integer(doc, "message_id"@, message_id))
        } else {
            Some(data)
        },
        None => Some(data),
    }
}

/// The payload with new text written into it: where the payload is a JSON
/// object, its text after the members `message` and `raw_message` were set;
/// any other payload stays as it is. `None` where the text cannot be written.
pub open spec fn payload_with_content(data: Seq<char>, text: Seq<char>, raw: Seq<char>) -> Option<
    Seq<char>,
> {
    match json_document(data) {
        Some(doc) => if json_is_object(doc) {
            json_text(
                json_with_string(json_with_string(doc, "message"@, text), "raw_message"@, raw),
            )
        } else {
            Some(data)
        },
        None => Some(data),
    }
}

/// The payload as a listing shows it: where it is a JSON document, its text
/// after the member `recalled` was set (a document that is no object is
/// written as it is); a payload that is no document, or cannot be written,
/// stays as it is.
pub open spec fn annotated(row: MessageRow) -> Seq<char> {
    match json_document(row.data) {
        Some(doc) => match json_text(json_with_bool(doc, "recalled"@, row.recalled)) {
            Some(text) => text,
            None => row.data,
        },
        None => row.data,
    }
}

/// Writes the remote id into a payload.
pub fn patch_remote_id(data: &str, message_id: i64) -> (r: Option<String>)
    ensures
        opt_text(r) == payload_with_remote_id(data@, message_id as int),
{
    match parse_document(data) {
        Some(doc) => {
            if is_object(&doc) {
                let mut doc = doc;
                insert_integer(&mut doc, "message_id", message_id);
                to_text(&doc)
            } else {
                Some(data.to_owned())
            }
        },
        None => Some(data.to_owned()),
    }
}

/// Writes new text into a payload.
pub fn patch_content(data: &str, text: &str, raw: &str) -> (r: Option<String>)
    ensures
        opt_text(r) == payload_with_content(data@, text@, raw@),
{
    match parse_document(data) {
        Some(doc) => {
            if is_object(&doc) {
                let mut doc = doc;
                insert_string(&mut doc, "message", text);
                insert_string(&mut doc, "raw_message", raw);
                to_text(&doc)
            } else {
                Some(data.to_owned())
            }
        },
        None => Some(data.to_owned()),
    }
}

/// Renders a row's payload for a listing, with its recalled flag.
pub fn annotate(row: &StoredMessage) -> (r: String)
    ensures
        r@ == annotated(row@),
{
    match parse_document(row.data.as_str()) {
        Some(doc) => {
            let mut doc = doc;
            insert_bool(&mut doc, "recalled", row.recalled);
            match to_text(&doc) {
                Some(text) => text,
                None => row.data.clone(),
            }
        },
        None => row.data.clone(),
    }
}

/// The store with a patch made to the rows that `hit` selects.
pub open spec fn with_patch(m: StoreModel, hit: spec_fn(MessageRow) -> bool, patch: PatchView)
    -> StoreModel {
    StoreModel { messages: patched_where(m.messages, hit, patch), ..m }
}

/// The store without the message `id`: its row, its shadow entry and the
/// index entry under its surrogate id are gone.
pub open spec fn deleted(m: StoreModel, id: Seq<char>) -> StoreModel {
    StoreModel {
        messages: m.messages.filter(other_message(id)),
        shadow: m.shadow.filter(other_owner(id)),
        index: match rowid_of(m.shadow, id) {
            Some(rowid) => m.index.filter(other_rowid(rowid)),
            None => m.index,
        },
        ..m
    }
}

/// The store after the remote id was attached to the message `id`: nothing
/// changes without such a message; with one, its row has the remote id, and
/// its payload too unless the patched payload cannot be written.
pub open spec fn remote_id_attached(m: StoreModel, id: Seq<char>, message_id: int) -> StoreModel {
    match first_where(m.messages, is_message(id)) {
        None => m,
        Some(row) => {
            let attached = with_patch(m, is_message(id), PatchView::RemoteId(message_id));
            match payload_with_remote_id(row.data, message_id) {
                Some(data) => with_patch(attached, is_message(id), PatchView::Payload(data)),
                None => attached,
            }
        },
    }
}

/// The store after the text of the message `id` was replaced: nothing changes
/// without such a message. With one, its row has the new text and raw text;
/// where the message has a surrogate id, its index entry is deleted and
/// written anew for the new text, so that a search goes by it; and its payload
/// has the new text too, unless the patched payload cannot be written.
pub open spec fn content_replaced(m: StoreModel, id: Seq<char>, text: Seq<char>, raw: Seq<char>)
    -> StoreModel {
    match first_where(m.messages, is_message(id)) {
        None => m,
        Some(row) => {
            let replaced = with_patch(m, is_message(id), PatchView::Content(text, raw));
            let indexed = match rowid_of(m.shadow, id) {
                Some(rowid) => reindexed(
                    replaced,
                    rowid,
                    patched(row, PatchView::Content(text, raw)),
                ),
                None => replaced,
            };
            match payload_with_content(row.data, text, raw) {
                Some(data) => with_patch(indexed, is_message(id), PatchView::Payload(data)),
                None => indexed,
            }
        },
    }
}

/// What an update of the message `id` answers: `false` without such a
/// message, `true` with one, and an error where its patched payload cannot be
/// written.
pub open spec fn update_answer(found: Option<MessageRow>, payload: Option<Seq<char>>) -> Result<
    bool,
    StoreError,
> {
    match found {
        None => Ok(false),
        Some(_) => match payload {
            Some(_) => Ok(true),
            None => Err(StoreError::Serialize),
        },
    }
}

impl MirrorStore {
    fn patch_rows(&mut self, marks: &Vec<bool>, patch: &Patch, Ghost(hit): Ghost<
        spec_fn(MessageRow) -> bool,
    >)
        requires
            old(self).wf(),
            marks.len() == old(self).messages.len(),
            forall|i: int|
                0 <= i < marks.len() ==> marks[i] == hit(#[trigger] old(self).messages[i]@),
        ensures
            final(self).wf(),
            final(self)@ == with_patch(old(self)@, hit, patch@),
    {
        let mut i: usize = 0;
        while i < self.messages.len()
            invariant
                i <= self.messages.len(),
                self.messages.len() == old(self).messages.len(),
                marks.len() == self.messages.len(),
                self.shadow == old(self).shadow,
                self.index == old(self).index,
                self.requests == old(self).requests,
                self.next_rowid == old(self).next_rowid,
                forall|j: int|
                    0 <= j < marks.len() ==> marks[j] == hit(#[trigger] old(self).messages[j]@),
                forall|j: int|
                    0 <= j < i ==> (#[trigger] self.messages[j])@ == (if marks[j] {
                        patched(old(self).messages[j]@, patch@)
                    } else {
                        old(self).messages[j]@
                    }),
                forall|j: int|
                    i <= j < self.messages.len() ==> #[trigger] self.messages[j] == old(
                        self,
                    ).messages[j],
            decreases self.messages.len() - i,
        {
            if marks[i] {
                let row = apply_patch(&self.messages[i], patch);
                self.messages.set(i, row);
            }
            i += 1;
        }
        proof {
            assert(views(self.messages@) =~= patched_where(
                views(old(self).messages@),
                hit,
                patch@,
            ));
            lemma_patch_keeps_keys(views(old(self).messages@), hit, patch@);
        }
    }

    /// The row with the local id `id`, if there is one.
    pub fn find_message(&self, id: &str) -> (r: Option<StoredMessage>)
        ensures
            opt_message(r) == first_where(self@.messages, is_message(id@)),
    {
        let marks = mask_is_message(&self.messages, id);
        proof {
            lemma_first_where(self@.messages, is_message(id@));
        }
        match first_marked(&marks) {
            Some(at) => {
                assert(self@.messages[at as int] == self.messages[at as int]@);
                Some(self.messages[at].duplicate())
            },
            None => {
                assert forall|i: int| 0 <= i < self@.messages.len() implies !is_message(id@)(
                    #[trigger] self@.messages[i],
                ) by {
                    assert(self@.messages[i] == self.messages[i]@);
                }
                None
            },
        }
    }
}

/// The rows' times.
pub open spec fn times(rows: Seq<MessageRow>) -> Seq<int> {
    rows.map_values(|row: MessageRow| row.timestamp)
}

/// The rows, latest first; rows of the same time in the order in which they
/// were written.
pub open spec fn by_time(rows: Seq<MessageRow>) -> Seq<MessageRow> {
    newest_first(times(rows)).map_values(|at: int| rows[at])
}

/// The page of `rows` that a listing shows, each row rendered with its
/// recalled flag.
pub open spec fn shown(rows: Seq<MessageRow>, limit: Option<u32>, offset: Option<u32>) -> Seq<
    Seq<char>,
> {
    page(by_time(rows), effective_limit(limit), effective_offset(offset)).map_values(
        |row: MessageRow| annotated(row),
    )
}

/// The rows that a listing with these filters shows: each filter that is
/// given must be met.
pub open spec fn listed(
    post_type: Option<Seq<char>>,
    user_id: Option<int>,
    group_id: Option<int>,
) -> spec_fn(MessageRow) -> bool {
    |row: MessageRow|
        {
            &&& post_type is Some ==> row.post_type == post_type->0
            &&& user_id is Some ==> row.user_id == user_id
            &&& group_id is Some ==> row.group_id == group_id
        }
}

/// The rows that FTS5 finds for `query`: those whose index entry matches.
pub open spec fn found(m: StoreModel, query: Seq<char>) -> spec_fn(MessageRow) -> bool {
    |row: MessageRow|
        match indexed_entry(m, row.local_message_id) {
            Some(entry) => entry_matches(query, entry) == Some(true),
            None => false,
        }
}

/// The rows on whose index entry FTS5 refuses `query`.
pub open spec fn refused(m: StoreModel, query: Seq<char>) -> spec_fn(MessageRow) -> bool {
    |row: MessageRow|
        match indexed_entry(m, row.local_message_id) {
            Some(entry) => entry_matches(query, entry) is None,
            None => false,
        }
}

/// Whether a search for `query` fails: FTS5 refuses the query outright, or on
/// the index entry of some message.
pub open spec fn search_fails(m: StoreModel, query: Seq<char>) -> bool {
    !query_accepted(query) || exists|i: int|
        0 <= i < m.messages.len() && refused(m, query)(#[trigger] m.messages[i])
}

/// The rows of the category `post_type`.
pub open spec fn of_category(post_type: Seq<char>) -> spec_fn(MessageRow) -> bool {
    |row: MessageRow| row.post_type == post_type
}

/// Counts of the mirrored messages.
#[derive(Clone, Copy, Debug, PartialEq, Eq)]
pub struct MessageStats {
    pub total: usize,
    /// Rows of the category `message`.
    pub messages: usize,
    /// Rows of the category `notice`.
    pub notices: usize,
}

/// The local ids of the rows that a trim to `keep` rows purges: all but the
/// `keep` latest.
pub open spec fn purged_ids(rows: Seq<MessageRow>, keep: int) -> Seq<Seq<char>> {
    by_time(rows).subrange(page_from_len(rows.len() as int, keep), rows.len() as int).map_values(
        |row: MessageRow| row.local_message_id,
    )
}

/// Where the purged rows start among `len` rows of which `keep` stay.
pub open spec fn page_from_len(len: int, keep: int) -> int {
    if keep < len {
        keep
    } else {
        len
    }
}

/// The store after the messages `ids` were deleted one after the other.
pub open spec fn purged(m: StoreModel, ids: Seq<Seq<char>>) -> StoreModel
    decreases ids.len(),
{
    if ids.len() == 0 {
        m
    } else {
        deleted(purged(m, ids.drop_last()), ids.last())
    }
}

fn stamps_of(rows: &Vec<StoredMessage>) -> (stamps: Vec<i64>)
    ensures
        stamps@.map_values(|t: i64| t as int) == times(views(rows@)),
        stamps.len() == rows.len(),
{
    let mut stamps: Vec<i64> = Vec::new();
    let mut i: usize = 0;
    while i < rows.len()
        invariant
            i <= rows.len(),
            stamps.len() == i,
            forall|j: int| 0 <= j < i ==> stamps[j] == (#[trigger] rows[j]).timestamp,
        decreases rows.len() - i,
    {
        stamps.push(rows[i].timestamp);
        i += 1;
    }
    assert(stamps@.map_values(|t: i64| t as int) =~= times(views(rows@)));
    stamps
}

/// Renders the page of `rows` that a listing shows.
pub fn render_page(rows: &Vec<StoredMessage>, limit: Option<u32>, offset: Option<u32>) -> (out:
    Vec<String>)
    ensures
        views(out@) == shown(views(rows@), limit, offset),
{
    let stamps = stamps_of(rows);
    let order = order_newest_first(&stamps);
    let bounds = page_bounds(order.len(), limit, offset);
    let ghost sorted = by_time(views(rows@));
    let ghost want = shown(views(rows@), limit, offset);
    proof {
        assert(sorted.len() == order.len());
        assert forall|k: int| 0 <= k < order.len() implies sorted[k] == rows[order[k] as int]@ by {
            assert(order@.map_values(|p: usize| p as int)[k] == order[k] as int);
        }
    }
    let mut out: Vec<String> = Vec::new();
    let mut k: usize = bounds.0;
    while k < bounds.1
        invariant
            bounds.0 <= k <= bounds.1 <= order.len(),
            sorted.len() == order.len(),
            forall|j: int| 0 <= j < order.len() ==> #[trigger] order[j] < rows.len(),
            forall|j: int| 0 <= j < order.len() ==> sorted[j] == rows[order[j] as int]@,
            out.len() == k - bounds.0,
            forall|j: int| 0 <= j < out.len() ==> (#[trigger] out[j])@ == annotated(
                sorted[bounds.0 + j],
            ),
        decreases bounds.1 - k,
    {
        out.push(annotate(&rows[order[k]]));
        k += 1;
    }
    assert(views(out@) =~= want);
    out
}

fn mask_listed(
    items: &Vec<StoredMessage>,
    post_type: &Option<String>,
    user_id: Option<i64>,
    group_id: Option<i64>,
) -> (marks: Vec<bool>)
    ensures
        marks.len() == items.len(),
        forall|i: int|
            0 <= i < items.len() ==> marks[i] == listed(
                opt_text(*post_type),
                opt_int(user_id),
                opt_int(group_id),
            )(#[trigger] items[i]@),
{
    let mut marks: Vec<bool> = Vec::new();
    let mut i: usize = 0;
    while i < items.len()
        invariant
            i <= items.len(),
            marks.len() == i,
            forall|j: int|
                0 <= j < i ==> marks[j] == listed(
                    opt_text(*post_type),
                    opt_int(user_id),
                    opt_int(group_id),
                )(#[trigger] items[j]@),
        decreases items.len() - i,
    {
        let row = &items[i];
        let category = match post_type {
            Some(wanted) => row.post_type == *wanted,
            None => true,
        };
        let user = match user_id {
            Some(wanted) => match row.user_id {
                Some(id) => id == wanted,
                None => false,
            },
            None => true,
        };
        let group = match group_id {
            Some(wanted) => match row.group_id {
                Some(id) => id == wanted,
                None => false,
            },
            None => true,
        };
        marks.push(category && user && group);
        i += 1;
    }
    marks
}

fn mask_category(items: &Vec<StoredMessage>, post_type: &str) -> (marks: Vec<bool>)
    ensures
        marks.len() == items.len(),
        forall|i: int|
            0 <= i < items.len() ==> marks[i] == of_category(post_type@)(#[trigger] items[i]@),
{
    let mut marks: Vec<bool> = Vec::new();
    let mut i: usize = 0;
    while i < items.len()
        invariant
            i <= items.len(),
            marks.len() == i,
            forall|j: int|
                0 <= j < i ==> marks[j] == of_category(post_type@)(#[trigger] items[j]@),
        decreases items.len() - i,
    {
        marks.push(same_text(items[i].post_type.as_str(), post_type));
        i += 1;
    }
    marks
}

fn mask_has_rowid(items: &Vec<IndexEntry>, rowid: i64) -> (marks: Vec<bool>)
    ensures
        marks.len() == items.len(),
        forall|i: int|
            0 <= i < items.len() ==> marks[i] == has_rowid(rowid as int)(#[trigger] items[i]@),
{
    let mut marks: Vec<bool> = Vec::new();
    let mut i: usize = 0;
    while i < items.len()
        invariant
            i <= items.len(),
            marks.len() == i,
            forall|j: int| 0 <= j < i ==> marks[j] == has_rowid(rowid as int)(#[trigger] items[j]@),
        decreases items.len() - i,
    {
        marks.push(items[i].rowid == rowid);
        i += 1;
    }
    marks
}

impl MirrorStore {
    /// The position of the index entry through which the message `id` is
    /// found by a search.
    fn find_entry(&self, id: &String) -> (r: Option<usize>)
        ensures
            r is Some == indexed_entry(self@, id@) is Some,
            r is Some ==> r.unwrap() < self.index.len() && self.index[r.unwrap() as int]@
                == indexed_entry(self@, id@)->0,
    {
        match self.lookup_rowid(id) {
            Some(rowid) => {
                let marks = mask_has_rowid(&self.index, rowid);
                proof {
                    lemma_first_where(self@.index, has_rowid(rowid as int));
                }
                match first_marked(&marks) {
                    Some(at) => {
                        assert(self@.index[at as int] == self.index[at as int]@);
                        Some(at)
                    },
                    None => {
                        assert forall|i: int| 0 <= i < self@.index.len() implies !has_rowid(
                            rowid as int,
                        )(#[trigger] self@.index[i]) by {
                            assert(self@.index[i] == self.index[i]@);
                        }
                        None
                    },
                }
            },
            None => None,
        }
    }
}

/// Attaches the remote id to the message `local_message_id`: in the row and
/// in the row's payload. Returns whether there is such a message; without one
/// nothing changes. The two writes are not one transaction: where the patched
/// payload cannot be written as text, the row has its remote id all the same.
pub fn update_message_id(store: &mut MirrorStore, local_message_id: &str, message_id: i64) -> (r:
    Result<bool, StoreError>)
    requires
        old(store).wf(),
    ensures
        final(store).wf(),
        final(store)@ == remote_id_attached(old(store)@, local_message_id@, message_id as int),
        r == update_answer(
            first_where(old(store)@.messages, is_message(local_message_id@)),
            match first_where(old(store)@.messages, is_message(local_message_id@)) {
                Some(row) => payload_with_remote_id(row.data, message_id as int),
                None => None,
            },
        ),
{
    let row = match store.find_message(local_message_id) {
        Some(row) => row,
        None => {
            return Ok(false);
        },
    };
    let marks = mask_is_message(&store.messages, local_message_id);
    store.patch_rows(&marks, &Patch::RemoteId(message_id), Ghost(is_message(local_message_id@)));
    match patch_remote_id(row.data.as_str(), message_id) {
        Some(data) => {
            let marks = mask_is_message(&store.messages, local_message_id);
            store.patch_rows(&marks, &Patch::Payload(data), Ghost(is_message(local_message_id@)));
            Ok(true)
        },
        None => Err(StoreError::Serialize),
    }
}

/// Replaces the text and raw text of the message `local_message_id`: in the
/// row, in the full-text index and in the row's payload. Returns whether there
/// is such a message; without one nothing changes. The writes are not one
/// transaction: where the patched payload cannot be written as text, the row
/// and the index have the new text all the same.
pub fn update_message_content(
    store: &mut MirrorStore,
    local_message_id: &str,
    message: &str,
    raw_message: &str,
) -> (r: Result<bool, StoreError>)
    requires
        old(store).wf(),
    ensures
        final(store).wf(),
        final(store)@ == content_replaced(
            old(store)@,
            local_message_id@,
            message@,
            raw_message@,
        ),
        r == update_answer(
            first_where(old(store)@.messages, is_message(local_message_id@)),
            match first_where(old(store)@.messages, is_message(local_message_id@)) {
                Some(row) => payload_with_content(row.data, message@, raw_message@),
                None => None,
            },
        ),
{
    let row = match store.find_message(local_message_id) {
        Some(row) => row,
        None => {
            return Ok(false);
        },
    };
    proof {
        lemma_first_where(store@.messages, is_message(local_message_id@));
    }
    let marks = mask_is_message(&store.messages, local_message_id);
    let patch = Patch::Content(message.to_owned(), raw_message.to_owned());
    store.patch_rows(&marks, &patch, Ghost(is_message(local_message_id@)));
    match store.lookup_rowid(&row.local_message_id) {
        Some(rowid) => {
            let replaced = apply_patch(&row, &patch);
            store.reindex(rowid, &replaced);
        },
        None => {},
    }
    match patch_content(row.data.as_str(), message, raw_message) {
        Some(data) => {
            let marks = mask_is_message(&store.messages, local_message_id);
            store.patch_rows(&marks, &Patch::Payload(data), Ghost(is_message(local_message_id@)));
            Ok(true)
        },
        None => Err(StoreError::Serialize),
    }
}

/// Marks as recalled every message with the remote id `message_id`, and
/// returns whether there is one. A message is recalled by its remote id only:
/// a row that has none is never touched.
pub fn mark_message_recalled(store: &mut MirrorStore, message_id: i64) -> (r: bool)
    requires
        old(store).wf(),
    ensures
        final(store).wf(),
        final(store)@ == with_patch(
            old(store)@,
            has_remote_id(message_id as int),
            PatchView::Recall,
        ),
        r == (first_where(old(store)@.messages, has_remote_id(message_id as int)) is Some),
{
    let marks = mask_has_remote_id(&store.messages, message_id);
    proof {
        lemma_first_where(store@.messages, has_remote_id(message_id as int));
    }
    let hit = first_marked(&marks);
    proof {
        if hit is Some {
            assert(store@.messages[hit.unwrap() as int] == store.messages[hit.unwrap() as int]@);
        } else {
            assert forall|i: int| 0 <= i < store@.messages.len() implies !has_remote_id(
                message_id as int,
            )(#[trigger] store@.messages[i]) by {
                assert(store@.messages[i] == store.messages[i]@);
            }
        }
    }
    store.patch_rows(&marks, &Patch::Recall, Ghost(has_remote_id(message_id as int)));
    hit.is_some()
}

/// The first message with the remote id `message_id`, if there is one.
pub fn check_message_recalled(store: &MirrorStore, message_id: i64) -> (r: Option<StoredMessage>)
    ensures
        opt_message(r) == first_where(store@.messages, has_remote_id(message_id as int)),
{
    let marks = mask_has_remote_id(&store.messages, message_id);
    proof {
        lemma_first_where(store@.messages, has_remote_id(message_id as int));
    }
    match first_marked(&marks) {
        Some(at) => {
            assert(store@.messages[at as int] == store.messages[at as int]@);
            Some(store.messages[at].duplicate())
        },
        None => {
            assert forall|i: int| 0 <= i < store@.messages.len() implies !has_remote_id(
                message_id as int,
            )(#[trigger] store@.messages[i]) by {
                assert(store@.messages[i] == store.messages[i]@);
            }
            None
        },
    }
}

/// Lists messages, latest first: those that meet every filter that is given,
/// one page of them, each rendered with its recalled flag.
pub fn get_messages(
    store: &MirrorStore,
    limit: Option<u32>,
    offset: Option<u32>,
    post_type: &Option<String>,
    user_id: Option<i64>,
    group_id: Option<i64>,
) -> (r: Vec<String>)
    ensures
        views(r@) == shown(
            store@.messages.filter(
                listed(
                    opt_text(*post_type),
                    opt_int(user_id),
                    opt_int(group_id),
                ),
            ),
            limit,
            offset,
        ),
{
    let marks = mask_listed(&store.messages, post_type, user_id, group_id);
    let rows = select(&store.messages, &marks);
    proof {
        lemma_picked_views(
            store.messages@,
            marks@,
            listed(
                opt_text(*post_type),
                opt_int(user_id),
                opt_int(group_id),
            ),
        );
    }
    render_page(&rows, limit, offset)
}

/// Searches the full text of the messages: those whose index entry FTS5
/// finds for `query`, latest first, one page of them, each rendered with its
/// recalled flag. A message without a shadow entry or without an index entry
/// is not found. The search fails where FTS5 refuses the query.
pub fn search_messages(store: &MirrorStore, query: &str, limit: Option<u32>, offset: Option<u32>)
    -> (r: Result<Vec<String>, StoreError>)
    ensures
        search_fails(store@, query@) ==> r == Err::<Vec<String>, StoreError>(StoreError::Search),
        !search_fails(store@, query@) ==> r is Ok && views(r.unwrap()@) == shown(
            store@.messages.filter(found(store@, query@)),
            limit,
            offset,
        ),
{
    if !accepts(query) {
        return Err(StoreError::Search);
    }
    let mut marks: Vec<bool> = Vec::new();
    let mut i: usize = 0;
    while i < store.messages.len()
        invariant
            i <= store.messages.len(),
            marks.len() == i,
            forall|j: int|
                0 <= j < i ==> marks[j] == found(store@, query@)(#[trigger] store.messages[j]@),
            forall|j: int| 0 <= j < i ==> !refused(store@, query@)(#[trigger] store@.messages[j]),
        decreases store.messages.len() - i,
    {
        assert(store@.messages[i as int] == store.messages[i as int]@);
        let hit = match store.find_entry(&store.messages[i].local_message_id) {
            Some(at) => match match_entry(query, &store.index[at]) {
                Some(hit) => hit,
                None => {
                    assert(refused(store@, query@)(store@.messages[i as int]));
                    return Err(StoreError::Search);
                },
            },
            None => false,
        };
        marks.push(hit);
        i += 1;
    }
    let rows = select(&store.messages, &marks);
    proof {
        lemma_picked_views(store.messages@, marks@, found(store@, query@));
    }
    Ok(render_page(&rows, limit, offset))
}

/// Deletes the message `local_message_id` with its shadow entry and its
/// index entry.
pub fn delete_message(store: &mut MirrorStore, local_message_id: &String)
    requires
        old(store).wf(),
    ensures
        final(store).wf(),
        final(store)@ == deleted(old(store)@, local_message_id@),
{
    match store.lookup_rowid(local_message_id) {
        Some(rowid) => {
            let keep = mask_other_rowid(&store.index, rowid);
            let entries = select(&store.index, &keep);
            proof {
                lemma_picked_views(store.index@, keep@, other_rowid(rowid as int));
                lemma_filter_distinct(store@.index, other_rowid(rowid as int), index_key());
            }
            store.index = entries;
        },
        None => {},
    }
    let keep = mask_other_owner(&store.shadow, local_message_id);
    let entries = select(&store.shadow, &keep);
    let marks = mask_other_message(&store.messages, local_message_id);
    let rows = select(&store.messages, &marks);
    proof {
        let m = old(store)@;
        lemma_picked_views(store.shadow@, keep@, other_owner(local_message_id@));
        lemma_filter_distinct(m.shadow, other_owner(local_message_id@), shadow_key());
        lemma_filter_distinct(m.shadow, other_owner(local_message_id@), shadow_owner());
        let at = lemma_filter_source(m.shadow, other_owner(local_message_id@));
        let kept = m.shadow.filter(other_owner(local_message_id@));
        assert forall|i: int| 0 <= i < kept.len() implies 1 <= (#[trigger] kept[i]).rowid
            < m.next_rowid by {
            assert(kept[i] == m.shadow[at[i]]);
        }
        lemma_picked_views(store.messages@, marks@, other_message(local_message_id@));
        lemma_filter_distinct(m.messages, other_message(local_message_id@), message_key());
    }
    store.shadow = entries;
    store.messages = rows;
}

/// Keeps the `keep_count` latest messages and deletes the others, each with
/// its shadow entry and its index entry. Returns how many were deleted.
pub fn cleanup_old_messages(store: &mut MirrorStore, keep_count: u32) -> (r: usize)
    requires
        old(store).wf(),
    ensures
        final(store).wf(),
        final(store)@ == purged(old(store)@, purged_ids(old(store)@.messages, keep_count as int)),
        r == purged_ids(old(store)@.messages, keep_count as int).len(),
{
    let stamps = stamps_of(&store.messages);
    let order = order_newest_first(&stamps);
    let len: usize = order.len();
    let from: usize = if (keep_count as usize) < len {
        keep_count as usize
    } else {
        len
    };
    let ghost ids = purged_ids(store@.messages, keep_count as int);
    let mut doomed: Vec<String> = Vec::new();
    let mut k: usize = from;
    proof {
        assert(by_time(store@.messages).len() == len);
        assert forall|j: int| 0 <= j < order.len() implies by_time(store@.messages)[j]
            == store.messages[order[j] as int]@ by {
            assert(order@.map_values(|p: usize| p as int)[j] == order[j] as int);
        }
    }
    while k < len
        invariant
            from <= k <= len,
            len == order.len(),
            len == store.messages.len(),
            by_time(store@.messages).len() == len,
            from == page_from_len(len as int, keep_count as int),
            ids.len() == len - from,
            doomed.len() == k - from,
            forall|j: int| 0 <= j < order.len() ==> #[trigger] order[j] < store.messages.len(),
            forall|j: int|
                0 <= j < order.len() ==> by_time(store@.messages)[j]
                    == store.messages[order[j] as int]@,
            ids == purged_ids(store@.messages, keep_count as int),
            forall|j: int| 0 <= j < doomed.len() ==> (#[trigger] doomed[j])@ == ids[j],
        decreases len - k,
    {
        assert(ids[k - from] == by_time(store@.messages)[k as int].local_message_id);
        doomed.push(store.messages[order[k]].local_message_id.clone());
        k += 1;
    }
    let mut n: usize = 0;
    while n < doomed.len()
        invariant
            n <= doomed.len(),
            doomed.len() == ids.len(),
            forall|j: int| 0 <= j < doomed.len() ==> (#[trigger] doomed[j])@ == ids[j],
            store.wf(),
            store@ == purged(old(store)@, ids.subrange(0, n as int)),
        decreases doomed.len() - n,
    {
        proof {
            assert(ids.subrange(0, n + 1).drop_last() =~= ids.subrange(0, n as int));
        }
        delete_message(store, &doomed[n]);
        n += 1;
    }
    proof {
        assert(ids.subrange(0, n as int) =~= ids);
    }
    doomed.len()
}

/// Counts the mirrored messages: all of them, those of the category
/// `message` and those of the category `notice`.
pub fn get_message_stats(store: &MirrorStore) -> (r: MessageStats)
    ensures
        r.total == store@.messages.len(),
        r.messages == store@.messages.filter(of_category("message"@)).len(),
        r.notices == store@.messages.filter(of_category("notice"@)).len(),
{
    let messages = mask_category(&store.messages, "message");
    let notices = mask_category(&store.messages, "notice");
    proof {
        lemma_picked_views(store.messages@, messages@, of_category("message"@));
        lemma_picked_views(store.messages@, notices@, of_category("notice"@));
        lemma_picked_len(store.messages@, messages@);
        lemma_picked_len(store.messages@, notices@);
    }
    MessageStats {
        total: store.messages.len(),
        messages: count_marked(&messages),
        notices: count_marked(&notices),
    }
}

/// A save settles the full-text index for its message, whatever the three
/// tables held before: the store stays well-formed, the saved row is the one
/// row with its local id, and the index entry through which a search finds the
/// message holds the text just saved. So a search after a save goes by the
/// latest content, never by what an earlier write left in the index.
pub proof fn save_settles_the_index(m: StoreModel, row: MessageRow)
    requires
        store_wf(m),
        shadow_available(upserted(m, row), row.local_message_id),
    ensures
        ({
            let after = saved(m, row);
            let rowid = rowid_of(after.shadow, row.local_message_id);
            &&& store_wf(after)
            &&& first_where(after.messages, is_message(row.local_message_id)) == Some(row)
            &&& rowid is Some
            &&& indexed_entry(after, row.local_message_id) == Some(
                index_row_for(rowid->0, row),
            )
            &&& forall|query: Seq<char>| #[trigger]
                found(after, query)(row) == (entry_matches(
                    query,
                    index_row_for(rowid->0, row),
                ) == Some(true))
        }),
{
    let id = row.local_message_id;
    let first = upserted(m, row);
    let second = with_shadow(first, id);
    let after = saved(m, row);
    // the row
    lemma_replace_distinct(m.messages, row, other_message(id), message_key());
    let at = lemma_filter_source(m.messages, other_message(id));
    let kept = m.messages.filter(other_message(id));
    lemma_first_where(after.messages, is_message(id));
    assert forall|j: int| 0 <= j < kept.len() implies !is_message(id)(
        #[trigger] after.messages[j],
    ) by {
        assert(kept[j] == m.messages[at[j]]);
    }
    assert(is_message(id)(after.messages[kept.len() as int]));
    // the shadow entry
    lemma_rowid_of(first.shadow, id);
    if rowid_of(first.shadow, id) is None {
        let entry = ShadowRow { rowid: first.next_rowid, local_message_id: id };
        assert(first.shadow.push(entry).drop_last() =~= first.shadow);
        lemma_push_distinct(first.shadow, entry, shadow_key());
        lemma_push_distinct(first.shadow, entry, shadow_owner());
    }
    let rowid = rowid_of(second.shadow, id)->0;
    // the index entry
    let entry = index_row_for(rowid, row);
    lemma_replace_distinct(second.index, entry, other_rowid(rowid), index_key());
    let from = lemma_filter_source(second.index, other_rowid(rowid));
    let others = second.index.filter(other_rowid(rowid));
    lemma_first_where(after.index, has_rowid(rowid));
    assert forall|j: int| 0 <= j < others.len() implies !has_rowid(rowid)(
        #[trigger] after.index[j],
    ) by {
        assert(others[j] == second.index[from[j]]);
    }
    assert(has_rowid(rowid)(after.index[others.len() as int]));
}

/// A patch to a row alone leaves the full-text index alone: the entry
/// through which a search finds any message is the same before and after.
pub proof fn patch_leaves_the_index(
    m: StoreModel,
    hit: spec_fn(MessageRow) -> bool,
    patch: PatchView,
    id: Seq<char>,
)
    ensures
        indexed_entry(with_patch(m, hit, patch), id) == indexed_entry(m, id),
{
}

/// One write to the message side of the store.
pub enum Write {
    /// A save of a row.
    Save(MessageRow),
    /// The remote id is attached to the message with this local id.
    RemoteId(Seq<char>, int),
    /// The text and raw text of the message with this local id are replaced.
    Content(Seq<char>, Seq<char>, Seq<char>),
    /// The messages with this remote id are recalled.
    Recall(int),
}

/// The store after one write. A save for which no surrogate id is left
/// writes the row and nothing else.
pub open spec fn written(m: StoreModel, write: Write) -> StoreModel {
    match write {
        Write::Save(row) => if shadow_available(upserted(m, row), row.local_message_id) {
            saved(m, row)
        } else {
            upserted(m, row)
        },
        Write::RemoteId(id, message_id) => remote_id_attached(m, id, message_id),
        Write::Content(id, text, raw) => content_replaced(m, id, text, raw),
        Write::Recall(message_id) => with_patch(m, has_remote_id(message_id), PatchView::Recall),
    }
}

/// The store after a run of writes, one after the other.
pub open spec fn written_all(m: StoreModel, writes: Seq<Write>) -> StoreModel
    decreases writes.len(),
{
    if writes.len() == 0 {
        m
    } else {
        written(written_all(m, writes.drop_last()), writes.last())
    }
}

/// The write is one to the message `id`: a save of it, or an update of it by
/// its local id. A recall goes by remote id and may be a write to any message.
pub open spec fn writes_to(write: Write, id: Seq<char>) -> bool {
    match write {
        Write::Save(row) => row.local_message_id == id,
        Write::RemoteId(target, _) => target == id,
        Write::Content(target, _, _) => target == id,
        Write::Recall(_) => true,
    }
}

/// The message `id` is settled: it has a row and a surrogate id, and the
/// index entry through which a search finds it holds what the row holds now.
pub open spec fn settled(m: StoreModel, id: Seq<char>) -> bool {
    &&& store_wf(m)
    &&& rowid_of(m.shadow, id) is Some
    &&& first_where(m.messages, is_message(id)) is Some
    &&& indexed_entry(m, id) == Some(
        index_row_for(rowid_of(m.shadow, id)->0, first_where(m.messages, is_message(id))->0),
    )
}

proof fn lemma_patch_keeps_wf(m: StoreModel, hit: spec_fn(MessageRow) -> bool, patch: PatchView)
    requires
        store_wf(m),
    ensures
        store_wf(with_patch(m, hit, patch)),
{
    lemma_patch_keeps_keys(m.messages, hit, patch);
}

proof fn lemma_reindex_keeps_wf(m: StoreModel, rowid: int, row: MessageRow)
    requires
        store_wf(m),
    ensures
        store_wf(reindexed(m, rowid, row)),
        entry_of(reindexed(m, rowid, row).index, rowid) == Some(index_row_for(rowid, row)),
{
    let entry = index_row_for(rowid, row);
    lemma_replace_distinct(m.index, entry, other_rowid(rowid), index_key());
    let from = lemma_filter_source(m.index, other_rowid(rowid));
    let others = m.index.filter(other_rowid(rowid));
    let after = reindexed(m, rowid, row).index;
    lemma_first_where(after, has_rowid(rowid));
    assert forall|j: int| 0 <= j < others.len() implies !has_rowid(rowid)(#[trigger] after[j]) by {
        assert(others[j] == m.index[from[j]]);
    }
    assert(has_rowid(rowid)(after[others.len() as int]));
}

/// The first row with a local id, after a patch, is the first row with that
/// id before it, patched if the patch selects it.
proof fn lemma_patched_row(
    rows: Seq<MessageRow>,
    hit: spec_fn(MessageRow) -> bool,
    patch: PatchView,
    id: Seq<char>,
)
    ensures
        first_where(patched_where(rows, hit, patch), is_message(id)) == (match first_where(
            rows,
            is_message(id),
        ) {
            Some(row) => Some(
                if hit(row) {
                    patched(row, patch)
                } else {
                    row
                },
            ),
            None => None,
        }),
    decreases rows.len(),
{
    if rows.len() > 0 {
        lemma_patched_row(rows.drop_last(), hit, patch, id);
        assert(patched_where(rows, hit, patch).drop_last() =~= patched_where(
            rows.drop_last(),
            hit,
            patch,
        ));
    }
}

/// Every write keeps the store well-formed.
pub proof fn write_keeps_the_store_well_formed(m: StoreModel, write: Write)
    requires
        store_wf(m),
    ensures
        store_wf(written(m, write)),
{
    match write {
        Write::Save(row) => {
            if shadow_available(upserted(m, row), row.local_message_id) {
                save_settles_the_index(m, row);
            } else {
                lemma_replace_distinct(
                    m.messages,
                    row,
                    other_message(row.local_message_id),
                    message_key(),
                );
            }
        },
        Write::RemoteId(id, message_id) => {
            let attached = with_patch(m, is_message(id), PatchView::RemoteId(message_id));
            lemma_patch_keeps_wf(m, is_message(id), PatchView::RemoteId(message_id));
            if let Some(row) = first_where(m.messages, is_message(id)) {
                if let Some(data) = payload_with_remote_id(row.data, message_id) {
                    lemma_patch_keeps_wf(attached, is_message(id), PatchView::Payload(data));
                }
            }
        },
        Write::Content(id, text, raw) => {
            if let Some(row) = first_where(m.messages, is_message(id)) {
                let replaced = with_patch(m, is_message(id), PatchView::Content(text, raw));
                lemma_patch_keeps_wf(m, is_message(id), PatchView::Content(text, raw));
                let indexed = match rowid_of(m.shadow, id) {
                    Some(rowid) => reindexed(
                        replaced,
                        rowid,
                        patched(row, PatchView::Content(text, raw)),
                    ),
                    None => replaced,
                };
                if let Some(rowid) = rowid_of(m.shadow, id) {
                    lemma_reindex_keeps_wf(
                        replaced,
                        rowid,
                        patched(row, PatchView::Content(text, raw)),
                    );
                }
                if let Some(data) = payload_with_content(row.data, text, raw) {
                    lemma_patch_keeps_wf(indexed, is_message(id), PatchView::Payload(data));
                }
            }
        },
        Write::Recall(message_id) => {
            lemma_patch_keeps_wf(m, has_remote_id(message_id), PatchView::Recall);
        },
    }
}

/// Every run of writes keeps the store well-formed.
pub proof fn writes_keep_the_store_well_formed(m: StoreModel, writes: Seq<Write>)
    requires
        store_wf(m),
    ensures
        store_wf(written_all(m, writes)),
    decreases writes.len(),
{
    if writes.len() > 0 {
        writes_keep_the_store_well_formed(m, writes.drop_last());
        write_keeps_the_store_well_formed(written_all(m, writes.drop_last()), writes.last());
    }
}

/// A write to a settled message leaves it settled: a save settles it anew, a
/// replacement of its text re-indexes it, and a write that changes no text
/// changes nothing that is searched.
pub proof fn write_keeps_the_message_settled(m: StoreModel, id: Seq<char>, write: Write)
    requires
        settled(m, id),
        writes_to(write, id),
    ensures
        settled(written(m, write), id),
        rowid_of(written(m, write).shadow, id) == rowid_of(m.shadow, id),
{
    let rowid = rowid_of(m.shadow, id)->0;
    let row = first_where(m.messages, is_message(id))->0;
    write_keeps_the_store_well_formed(m, write);
    match write {
        Write::Save(saved_row) => {
            save_settles_the_index(m, saved_row);
        },
        Write::RemoteId(target, message_id) => {
            let first = PatchView::RemoteId(message_id);
            let attached = with_patch(m, is_message(id), first);
            lemma_first_where(m.messages, is_message(id));
            lemma_patched_row(m.messages, is_message(id), first, id);
            if let Some(data) = payload_with_remote_id(row.data, message_id) {
                lemma_patched_row(attached.messages, is_message(id), PatchView::Payload(data), id);
            }
        },
        Write::Content(target, text, raw) => {
            let first = PatchView::Content(text, raw);
            let replaced = with_patch(m, is_message(id), first);
            lemma_first_where(m.messages, is_message(id));
            lemma_patched_row(m.messages, is_message(id), first, id);
            lemma_patch_keeps_wf(m, is_message(id), first);
            lemma_reindex_keeps_wf(replaced, rowid, patched(row, first));
            let indexed = reindexed(replaced, rowid, patched(row, first));
            if let Some(data) = payload_with_content(row.data, text, raw) {
                lemma_patched_row(indexed.messages, is_message(id), PatchView::Payload(data), id);
            }
        },
        Write::Recall(message_id) => {
            lemma_patched_row(m.messages, has_remote_id(message_id), PatchView::Recall, id);
        },
    }
}

/// For every run of saves and updates of one message, a search goes by the
/// message's latest content. Once the message is saved, whatever the tables
/// held before, it is settled, and it stays settled through every further
/// write to it: the index entry through which it is found holds the text
/// that its row holds at the end, never text that a write has replaced.
pub proof fn search_follows_the_latest_content(m: StoreModel, row: MessageRow, writes: Seq<Write>)
    requires
        store_wf(m),
        shadow_available(upserted(m, row), row.local_message_id),
        forall|i: int| 0 <= i < writes.len() ==> writes_to(#[trigger] writes[i], row.local_message_id),
    ensures
        settled(written_all(saved(m, row), writes), row.local_message_id),
    decreases writes.len(),
{
    let id = row.local_message_id;
    if writes.len() == 0 {
        save_settles_the_index(m, row);
    } else {
        let earlier = writes.drop_last();
        assert forall|i: int| 0 <= i < earlier.len() implies writes_to(#[trigger] earlier[i], id) by {
            assert(earlier[i] == writes[i]);
        }
        search_follows_the_latest_content(m, row, earlier);
        assert(writes_to(writes[writes.len() - 1], id));
        write_keeps_the_message_settled(written_all(saved(m, row), earlier), id, writes.last());
    }
}

/// A settled message is found by a search if and only if FTS5 matches the
/// query against what its row holds now.
pub proof fn settled_message_is_found_by_its_content(m: StoreModel, id: Seq<char>, query: Seq<char>)
    requires
        settled(m, id),
    ensures
        ({
            let now = first_where(m.messages, is_message(id))->0;
            found(m, query)(now) == (entry_matches(
                query,
                index_row_for(rowid_of(m.shadow, id)->0, now),
            ) == Some(true))
        }),
{
    lemma_first_where(m.messages, is_message(id));
}

/// A recall touches only the rows with the recalled remote id: every other
/// row, and so every row that has no remote id yet, stays as it is.
pub proof fn recall_spares_other_rows(m: StoreModel, message_id: int, at: int)
    requires
        0 <= at < m.messages.len(),
        m.messages[at].message_id != Some(message_id),
    ensures
        with_patch(m, has_remote_id(message_id), PatchView::Recall).messages[at] == m.messages[at],
{
}

/// A surrogate id is allocated once: a message that has one keeps it through
/// every later save.
pub proof fn surrogate_id_is_stable(m: StoreModel, row: MessageRow)
    requires
        store_wf(m),
        rowid_of(m.shadow, row.local_message_id) is Some,
    ensures
        rowid_of(saved(m, row).shadow, row.local_message_id) == rowid_of(
            m.shadow,
            row.local_message_id,
        ),
        saved(m, row).shadow == m.shadow,
        saved(m, row).next_rowid == m.next_rowid,
{
}

/// A listing shows every row once, latest first: no row of `by_time` is
/// later than one before it, and each row of `rows` has its place in it.
pub proof fn listing_is_latest_first(rows: Seq<MessageRow>)
    ensures
        by_time(rows).len() == rows.len(),
        forall|k: int, l: int|
            0 <= k < l < rows.len() ==> by_time(rows)[k].timestamp >= by_time(rows)[l].timestamp,
        forall|i: int|
            0 <= i < rows.len() ==> exists|k: int|
                0 <= k < rows.len() && by_time(rows)[k] == #[trigger] rows[i],
{
    let stamps = times(rows);
    let order = newest_first(stamps);
    lemma_newest_first(stamps, stamps.len());
    assert forall|k: int, l: int| 0 <= k < l < rows.len() implies by_time(rows)[k].timestamp
        >= by_time(rows)[l].timestamp by {
        assert(stamps[order[k]] >= stamps[order[l]]);
    }
    assert forall|i: int| 0 <= i < rows.len() implies exists|k: int|
        0 <= k < rows.len() && by_time(rows)[k] == #[trigger] rows[i] by {
        assert(order.contains(i));
        let k = choose|k: int| 0 <= k < order.len() && order[k] == i;
        assert(by_time(rows)[k] == rows[i]);
    }
}

/// The rows whose local id is none of `ids`.
pub open spec fn not_among(ids: Seq<Seq<char>>) -> spec_fn(MessageRow) -> bool {
    |row: MessageRow| !ids.contains(row.local_message_id)
}

proof fn lemma_purged_rows(m: StoreModel, ids: Seq<Seq<char>>)
    ensures
        purged(m, ids).messages == m.messages.filter(not_among(ids)),
    decreases ids.len(),
{
    if ids.len() == 0 {
        lemma_filter_all(m.messages, not_among(ids));
    } else {
        let earlier = ids.drop_last();
        lemma_purged_rows(m, earlier);
        assert forall|row: MessageRow| #[trigger]
            not_among(ids)(row) == (not_among(earlier)(row) && other_message(ids.last())(
                row,
            )) by {
            let id = row.local_message_id;
            if ids.contains(id) {
                let at = choose|at: int| 0 <= at < ids.len() && ids[at] == id;
                if at < earlier.len() {
                    assert(earlier[at] == id);
                }
            }
            if earlier.contains(id) {
                let at = choose|at: int| 0 <= at < earlier.len() && earlier[at] == id;
                assert(ids[at] == id);
            }
            if id == ids.last() {
                assert(ids[ids.len() - 1] == id);
            }
        }
        lemma_filter_twice(
            m.messages,
            not_among(earlier),
            other_message(ids.last()),
            not_among(ids),
        );
    }
}

/// Some row of `rows` has the local id `id`.
pub open spec fn occurs(rows: Seq<MessageRow>, id: Seq<char>) -> bool {
    exists|i: int| 0 <= i < rows.len() && (#[trigger] rows[i]).local_message_id == id
}

proof fn lemma_purged_count(rows: Seq<MessageRow>, ids: Seq<Seq<char>>)
    requires
        distinct_by(rows, message_key()),
        forall|a: int, b: int| 0 <= a < b < ids.len() ==> ids[a] != ids[b],
        forall|j: int| 0 <= j < ids.len() ==> occurs(rows, #[trigger] ids[j]),
    ensures
        rows.filter(not_among(ids)).len() == rows.len() - ids.len(),
    decreases ids.len(),
{
    if ids.len() == 0 {
        lemma_filter_all(rows, not_among(ids));
    } else {
        let earlier = ids.drop_last();
        let last = ids.last();
        assert forall|j: int| 0 <= j < earlier.len() implies occurs(rows, #[trigger] earlier[j]) by {
            assert(earlier[j] == ids[j]);
        }
        lemma_purged_count(rows, earlier);
        let kept = rows.filter(not_among(earlier));
        assert forall|row: MessageRow| #[trigger]
            not_among(ids)(row) == (not_among(earlier)(row) && other_message(last)(row)) by {
            let id = row.local_message_id;
            if ids.contains(id) {
                let at = choose|at: int| 0 <= at < ids.len() && ids[at] == id;
                if at < earlier.len() {
                    assert(earlier[at] == id);
                }
            }
            if earlier.contains(id) {
                let at = choose|at: int| 0 <= at < earlier.len() && earlier[at] == id;
                assert(ids[at] == id);
            }
            if id == last {
                assert(ids[ids.len() - 1] == id);
            }
        }
        lemma_filter_twice(rows, not_among(earlier), other_message(last), not_among(ids));
        lemma_filter_distinct(rows, not_among(earlier), message_key());
        let from = lemma_filter_source(rows, not_among(earlier));
        assert(occurs(rows, ids[ids.len() - 1]));
        let i = choose|i: int| 0 <= i < rows.len() && (#[trigger] rows[i]).local_message_id == last;
        assert(not_among(earlier)(rows[i])) by {
            if earlier.contains(last) {
                let at = choose|at: int| 0 <= at < earlier.len() && earlier[at] == last;
                assert(ids[at] == ids[ids.len() - 1]);
            }
        }
        let k = choose|k: int| 0 <= k < from.len() && from[k] == i;
        assert(message_key()(kept[k]) == last);
        lemma_filter_one_out(kept, message_key(), last, other_message(last));
    }
}

/// A trim to `keep` rows leaves exactly the `keep` latest rows, or all rows
/// where there are no more: a row stays if and only if it is among the first
/// `keep` of the listing by time.
pub proof fn trim_keeps_the_latest(m: StoreModel, keep: int)
    requires
        store_wf(m),
        keep >= 0,
    ensures
        ({
            let after = purged(m, purged_ids(m.messages, keep));
            let stay = page_from_len(m.messages.len() as int, keep);
            &&& after.messages == m.messages.filter(not_among(purged_ids(m.messages, keep)))
            &&& after.messages.len() == stay
            &&& forall|i: int|
                0 <= i < m.messages.len() ==> (not_among(purged_ids(m.messages, keep))(
                    #[trigger] m.messages[i],
                ) <==> exists|k: int| 0 <= k < stay && by_time(m.messages)[k] == m.messages[i])
        }),
{
    let rows = m.messages;
    let ids = purged_ids(rows, keep);
    let stay = page_from_len(rows.len() as int, keep);
    let stamps = times(rows);
    let order = newest_first(stamps);
    lemma_newest_first(stamps, stamps.len());
    let sorted = by_time(rows);
    assert forall|k: int, l: int| 0 <= k < l < order.len() implies order[k] != order[l] by {}
    assert forall|j: int| 0 <= j < ids.len() implies ids[j] == rows[order[stay + j]].local_message_id by {
        assert(sorted[stay + j] == rows[order[stay + j]]);
    }
    assert forall|a: int, b: int| 0 <= a < b < ids.len() implies ids[a] != ids[b] by {
        assert(order[stay + a] != order[stay + b]);
        let x = order[stay + a];
        let y = order[stay + b];
        if x < y {
            assert(message_key()(rows[x]) != message_key()(rows[y]));
        } else {
            assert(message_key()(rows[y]) != message_key()(rows[x]));
        }
    }
    assert forall|j: int| 0 <= j < ids.len() implies occurs(rows, #[trigger] ids[j]) by {
        assert(rows[order[stay + j]].local_message_id == ids[j]);
    }
    lemma_purged_rows(m, ids);
    lemma_purged_count(rows, ids);
    assert forall|i: int| 0 <= i < rows.len() implies (not_among(ids)(#[trigger] rows[i])
        <==> exists|k: int| 0 <= k < stay && sorted[k] == rows[i]) by {
        assert(order.contains(i));
        let k = choose|k: int| 0 <= k < order.len() && order[k] == i;
        assert(sorted[k] == rows[i]);
        if k >= stay {
            assert(ids[k - stay] == rows[i].local_message_id);
            assert(ids.contains(rows[i].local_message_id));
            if exists|l: int| 0 <= l < stay && sorted[l] == rows[i] {
                let l = choose|l: int| 0 <= l < stay && sorted[l] == rows[i];
                assert(sorted[l] == rows[order[l]]);
                assert(order[l] != order[k]);
                let x = order[l];
                if x < i {
                    assert(message_key()(rows[x]) != message_key()(rows[i]));
                } else {
                    assert(message_key()(rows[i]) != message_key()(rows[x]));
                }
            }
        } else {
            if ids.contains(rows[i].local_message_id) {
                let j = choose|j: int| 0 <= j < ids.len() && ids[j] == rows[i].local_message_id;
                let x = order[stay + j];
                assert(order[k] != order[stay + j]);
                if x < i {
                    assert(message_key()(rows[x]) != message_key()(rows[i]));
                } else {
                    assert(message_key()(rows[i]) != message_key()(rows[x]));
                }
            }
        }
    }
}

} // verus!
