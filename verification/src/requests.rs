//! The request side of the mirror: relationship requests, of which each peer
//! has at most one per group, and at most one outside any group.

use vstd::prelude::*;
use vstd::string::*;
use crate::json::{
    get_bool, get_integer, get_string, json_bools, json_document, json_integers, json_strings,
    parse_document,
};
use crate::records::{RelationshipRequest, RequestRow};
use crate::rows::{
    count_marked,
    effective_limit,
    effective_offset,
    lemma_filter_distinct,
    lemma_filter_source,
    lemma_picked_len,
    lemma_picked_views,
    lemma_replace_distinct,
    newest_first,
    order_newest_first,
    page,
    page_bounds,
    select,
    views,
};
use crate::storage::{
    member, request_key, request_pair, store_wf, Field, MirrorStore, StoreError, StoreModel,
};
use crate::text::{opt_text, same_text};

verus! {

/// The text under `key`, or `fallback` where the document has none.
pub open spec fn text_or(members: Map<Seq<char>, Seq<char>>, key: Seq<char>, fallback: Seq<char>)
    -> Seq<char> {
    if members.contains_key(key) {
        members[key]
    } else {
        fallback
    }
}

/// The request that a payload describes: its id, time, kind, peer, peer name
/// and token are required; the comment is empty, the status `pending` and the
/// request unread where the payload does not say otherwise.
pub open spec fn request_of(doc: serde_json::Value) -> Result<RequestRow, StoreError> {
    let texts = json_strings(doc);
    let numbers = json_integers(doc);
    if !texts.contains_key("id"@) {
        Err(StoreError::MissingField(Field::Id))
    } else if !numbers.contains_key("time"@) {
        Err(StoreError::MissingField(Field::Time))
    } else if !texts.contains_key("request_type"@) {
        Err(StoreError::MissingField(Field::RequestType))
    } else if !numbers.contains_key("user_id"@) {
        Err(StoreError::MissingField(Field::UserId))
    } else if !texts.contains_key("user_name"@) {
        Err(StoreError::MissingField(Field::UserName))
    } else if !texts.contains_key("flag"@) {
        Err(StoreError::MissingField(Field::Flag))
    } else {
        Ok(
            RequestRow {
                id: texts["id"@],
                timestamp: numbers["time"@],
                request_type: texts["request_type"@],
                sub_type: member(texts, "sub_type"@),
                user_id: numbers["user_id"@],
                user_name: texts["user_name"@],
                nickname: member(texts, "nickname"@),
                comment: text_or(texts, "comment"@, Seq::empty()),
                flag: texts["flag"@],
                group_id: member(numbers, "group_id"@),
                group_name: member(texts, "group_name"@),
                status: text_or(texts, "status"@, "pending"@),
                is_read: json_bools(doc).contains_key("is_read"@) && json_bools(doc)["is_read"@],
            },
        )
    }
}

/// The request that a payload, given as text, describes.
pub open spec fn parsed_request(data: Seq<char>) -> Result<RequestRow, StoreError> {
    match json_document(data) {
        Some(doc) => request_of(doc),
        None => Err(StoreError::InvalidJson),
    }
}

/// What a parsed request is, as plain values.
pub open spec fn request_result(r: Result<RelationshipRequest, StoreError>) -> Result<
    RequestRow,
    StoreError,
> {
    match r {
        Ok(request) => Ok(request@),
        Err(error) => Err(error),
    }
}

/// Reads the request that a parsed payload describes.
pub fn request_from_document(doc: &serde_json::Value) -> (r: Result<
    RelationshipRequest,
    StoreError,
>)
    ensures
        request_result(r) == request_of(*doc),
{
    let id = match get_string(doc, "id") {
        Some(id) => id,
        None => {
            return Err(StoreError::MissingField(Field::Id));
        },
    };
    let timestamp = match get_integer(doc, "time") {
        Some(time) => time,
        None => {
            return Err(StoreError::MissingField(Field::Time));
        },
    };
    let request_type = match get_string(doc, "request_type") {
        Some(kind) => kind,
        None => {
            return Err(StoreError::MissingField(Field::RequestType));
        },
    };
    let user_id = match get_integer(doc, "user_id") {
        Some(user_id) => user_id,
        None => {
            return Err(StoreError::MissingField(Field::UserId));
        },
    };
    let user_name = match get_string(doc, "user_name") {
        Some(name) => name,
        None => {
            return Err(StoreError::MissingField(Field::UserName));
        },
    };
    let flag = match get_string(doc, "flag") {
        Some(flag) => flag,
        None => {
            return Err(StoreError::MissingField(Field::Flag));
        },
    };
    let request = RelationshipRequest {
        id,
        timestamp,
        request_type,
        sub_type: get_string(doc, "sub_type"),
        user_id,
        user_name,
        nickname: get_string(doc, "nickname"),
        comment: match get_string(doc, "comment") {
            Some(comment) => comment,
            None => String::new(),
        },
        flag,
        group_id: get_integer(doc, "group_id"),
        group_name: get_string(doc, "group_name"),
        status: match get_string(doc, "status") {
            Some(status) => status,
            None => "pending".to_owned(),
        },
        is_read: match get_bool(doc, "is_read") {
            Some(read) => read,
            None => false,
        },
    };
    Ok(request)
}

/// Reads the request that a payload describes.
pub fn parse_request(request_data: &str) -> (r: Result<RelationshipRequest, StoreError>)
    ensures
        request_result(r) == parsed_request(request_data@),
{
    match parse_document(request_data) {
        Some(doc) => request_from_document(&doc),
        None => Err(StoreError::InvalidJson),
    }
}

/// The requests that `row` does not supersede: those with another id and
/// another pair of peer and group.
pub open spec fn no_conflict(row: RequestRow) -> spec_fn(RequestRow) -> bool {
    |other: RequestRow|
        other.id != row.id && !(other.user_id == row.user_id && other.group_id == row.group_id)
}

/// The store after `row` was written: it replaces, whole, whatever request
/// had its id or its pair of peer and group.
pub open spec fn request_upserted(m: StoreModel, row: RequestRow) -> StoreModel {
    StoreModel { requests: m.requests.filter(no_conflict(row)).push(row), ..m }
}

/// The requests with the token `flag`.
pub open spec fn has_flag(flag: Seq<char>) -> spec_fn(RequestRow) -> bool {
    |row: RequestRow| row.flag == flag
}

/// The requests with another token than `flag`.
pub open spec fn other_flag(flag: Seq<char>) -> spec_fn(RequestRow) -> bool {
    |row: RequestRow| row.flag != flag
}

/// The requests that are pending.
pub open spec fn is_pending() -> spec_fn(RequestRow) -> bool {
    |row: RequestRow| row.status == "pending"@
}

/// The requests that are pending and unread.
pub open spec fn is_unread() -> spec_fn(RequestRow) -> bool {
    |row: RequestRow| row.status == "pending"@ && !row.is_read
}

/// The requests that a listing with this filter shows.
pub open spec fn with_status(status: Option<Seq<char>>) -> spec_fn(RequestRow) -> bool {
    |row: RequestRow| status is Some ==> row.status == status->0
}

/// A change to one request.
pub enum RequestPatch {
    Status(String),
    Read,
}

/// What a change is, as plain values.
pub enum RequestPatchView {
    Status(Seq<char>),
    Read,
}

impl View for RequestPatch {
    type V = RequestPatchView;

    open spec fn view(&self) -> RequestPatchView {
        match self {
            RequestPatch::Status(status) => RequestPatchView::Status(status@),
            RequestPatch::Read => RequestPatchView::Read,
        }
    }
}

/// The request after a change.
pub open spec fn request_patched(row: RequestRow, patch: RequestPatchView) -> RequestRow {
    match patch {
        RequestPatchView::Status(status) => RequestRow { status, ..row },
        RequestPatchView::Read => RequestRow { is_read: true, ..row },
    }
}

/// The store after the change was made to every request with the token
/// `flag`.
pub open spec fn requests_patched(m: StoreModel, flag: Seq<char>, patch: RequestPatchView)
    -> StoreModel {
    StoreModel {
        requests: m.requests.map_values(
            |row: RequestRow|
                if row.flag == flag {
                    request_patched(row, patch)
                } else {
                    row
                },
        ),
        ..m
    }
}

/// The store with only the requests that `keep` selects.
pub open spec fn requests_kept(m: StoreModel, keep: spec_fn(RequestRow) -> bool) -> StoreModel {
    StoreModel { requests: m.requests.filter(keep), ..m }
}

/// The requests' times.
pub open spec fn request_times(rows: Seq<RequestRow>) -> Seq<int> {
    rows.map_values(|row: RequestRow| row.timestamp)
}

/// The requests, latest first; requests of the same time in the order in
/// which they were written.
pub open spec fn requests_by_time(rows: Seq<RequestRow>) -> Seq<RequestRow> {
    newest_first(request_times(rows)).map_values(|at: int| rows[at])
}

fn mask_no_conflict(items: &Vec<RelationshipRequest>, row: &RelationshipRequest) -> (keep: Vec<
    bool,
>)
    ensures
        keep.len() == items.len(),
        forall|i: int| 0 <= i < items.len() ==> keep[i] == no_conflict(row@)(#[trigger] items[i]@),
{
    let mut keep: Vec<bool> = Vec::new();
    let mut i: usize = 0;
    while i < items.len()
        invariant
            i <= items.len(),
            keep.len() == i,
            forall|j: int| 0 <= j < i ==> keep[j] == no_conflict(row@)(#[trigger] items[j]@),
        decreases items.len() - i,
    {
        let other = &items[i];
        let same_group = match (other.group_id, row.group_id) {
            (Some(a), Some(b)) => a == b,
            (None, None) => true,
            _ => false,
        };
        keep.push(!(other.id == row.id) && !(other.user_id == row.user_id && same_group));
        i += 1;
    }
    keep
}

fn mask_flag(items: &Vec<RelationshipRequest>, flag: &str) -> (marks: Vec<bool>)
    ensures
        marks.len() == items.len(),
        forall|i: int| 0 <= i < items.len() ==> marks[i] == has_flag(flag@)(#[trigger] items[i]@),
{
    let mut marks: Vec<bool> = Vec::new();
    let mut i: usize = 0;
    while i < items.len()
        invariant
            i <= items.len(),
            marks.len() == i,
            forall|j: int| 0 <= j < i ==> marks[j] == has_flag(flag@)(#[trigger] items[j]@),
        decreases items.len() - i,
    {
        marks.push(same_text(items[i].flag.as_str(), flag));
        i += 1;
    }
    marks
}

/// Marks the requests by status and read flag: with `status`, those of that
/// status; with `unread_only`, only the unread among them.
fn mask_status(items: &Vec<RelationshipRequest>, status: &str, unread_only: bool) -> (marks: Vec<
    bool,
>)
    ensures
        marks.len() == items.len(),
        forall|i: int|
            0 <= i < items.len() ==> marks[i] == ((#[trigger] items[i]@).status == status@ && (
            unread_only ==> !items[i]@.is_read)),
{
    let mut marks: Vec<bool> = Vec::new();
    let mut i: usize = 0;
    while i < items.len()
        invariant
            i <= items.len(),
            marks.len() == i,
            forall|j: int|
                0 <= j < i ==> marks[j] == ((#[trigger] items[j]@).status == status@ && (
                unread_only ==> !items[j]@.is_read)),
        decreases items.len() - i,
    {
        let hit = same_text(items[i].status.as_str(), status) && (!unread_only
            || !items[i].is_read);
        marks.push(hit);
        i += 1;
    }
    marks
}

fn negate(marks: &Vec<bool>) -> (out: Vec<bool>)
    ensures
        out.len() == marks.len(),
        forall|i: int| 0 <= i < marks.len() ==> out[i] == !marks[i],
{
    let mut out: Vec<bool> = Vec::new();
    let mut i: usize = 0;
    while i < marks.len()
        invariant
            i <= marks.len(),
            out.len() == i,
            forall|j: int| 0 <= j < i ==> out[j] == !marks[j],
        decreases marks.len() - i,
    {
        out.push(!marks[i]);
        i += 1;
    }
    out
}

fn apply_request_patch(row: &RelationshipRequest, patch: &RequestPatch) -> (r: RelationshipRequest)
    ensures
        r@ == request_patched(row@, patch@),
{
    let mut copy = row.duplicate();
    match patch {
        RequestPatch::Status(status) => {
            copy.status = status.clone();
        },
        RequestPatch::Read => {
            copy.is_read = true;
        },
    }
    copy
}

impl MirrorStore {
    /// Writes a request in place of whatever request had its id or its pair
    /// of peer and group, and returns its id. Nothing of the old request
    /// stays: status and read flag are the new request's own.
    pub fn upsert_request(&mut self, row: RelationshipRequest) -> (id: String)
        requires
            old(self).wf(),
        ensures
            final(self).wf(),
            final(self)@ == request_upserted(old(self)@, row@),
            id@ == row@.id,
    {
        let id = row.id.clone();
        let keep = mask_no_conflict(&self.requests, &row);
        let mut rows = select(&self.requests, &keep);
        proof {
            let pred = no_conflict(row@);
            lemma_picked_views(self.requests@, keep@, pred);
            lemma_replace_distinct(views(self.requests@), row@, pred, request_key());
            lemma_replace_distinct(views(self.requests@), row@, pred, request_pair());
            assert(views(rows@.push(row)) =~= views(rows@).push(row@));
        }
        rows.push(row);
        self.requests = rows;
        id
    }

    fn patch_requests(&mut self, flag: &str, patch: &RequestPatch)
        requires
            old(self).wf(),
        ensures
            final(self).wf(),
            final(self)@ == requests_patched(old(self)@, flag@, patch@),
    {
        let marks = mask_flag(&self.requests, flag);
        let mut i: usize = 0;
        while i < self.requests.len()
            invariant
                i <= self.requests.len(),
                self.requests.len() == old(self).requests.len(),
                marks.len() == self.requests.len(),
                self.shadow == old(self).shadow,
                self.index == old(self).index,
                self.messages == old(self).messages,
                self.next_rowid == old(self).next_rowid,
                forall|j: int|
                    0 <= j < marks.len() ==> marks[j] == has_flag(flag@)(
                        #[trigger] old(self).requests[j]@,
                    ),
                forall|j: int|
                    0 <= j < i ==> (#[trigger] self.requests[j])@ == (if marks[j] {
                        request_patched(old(self).requests[j]@, patch@)
                    } else {
                        old(self).requests[j]@
                    }),
                forall|j: int|
                    i <= j < self.requests.len() ==> #[trigger] self.requests[j] == old(
                        self,
                    ).requests[j],
            decreases self.requests.len() - i,
        {
            if marks[i] {
                let row = apply_request_patch(&self.requests[i], patch);
                self.requests.set(i, row);
            }
            i += 1;
        }
        proof {
            let before = old(self)@.requests;
            let after = requests_patched(old(self)@, flag@, patch@).requests;
            assert(views(self.requests@) =~= after);
            assert forall|a: int, b: int| 0 <= a < b < after.len() implies request_key()(after[a])
                != request_key()(after[b]) && request_pair()(after[a]) != request_pair()(
                after[b],
            ) by {
                assert(request_key()(after[a]) == request_key()(before[a]));
                assert(request_key()(after[b]) == request_key()(before[b]));
                assert(request_pair()(after[a]) == request_pair()(before[a]));
                assert(request_pair()(after[b]) == request_pair()(before[b]));
            }
        }
    }

    fn keep_requests(&mut self, keep: &Vec<bool>, Ghost(pred): Ghost<spec_fn(RequestRow) -> bool>)
        -> (removed: usize)
        requires
            old(self).wf(),
            keep.len() == old(self).requests.len(),
            forall|i: int|
                0 <= i < keep.len() ==> keep[i] == pred(#[trigger] old(self).requests[i]@),
        ensures
            final(self).wf(),
            final(self)@ == requests_kept(old(self)@, pred),
            removed == old(self)@.requests.len() - final(self)@.requests.len(),
    {
        let rows = select(&self.requests, keep);
        proof {
            lemma_picked_views(self.requests@, keep@, pred);
            lemma_picked_len(self.requests@, keep@);
            lemma_filter_distinct(views(self.requests@), pred, request_key());
            lemma_filter_distinct(views(self.requests@), pred, request_pair());
        }
        let removed: usize = self.requests.len() - rows.len();
        self.requests = rows;
        removed
    }
}

/// Saves the request that `request_data` describes and returns its id. A
/// payload that is no JSON document, or lacks a required member, is refused
/// and changes nothing.
pub fn save_request(store: &mut MirrorStore, request_data: &str) -> (r: Result<String, StoreError>)
    requires
        old(store).wf(),
    ensures
        final(store).wf(),
        match parsed_request(request_data@) {
            Err(error) => r == Err::<String, StoreError>(error) && *final(store) == *old(store),
            Ok(row) => r is Ok && r.unwrap()@ == row.id && final(store)@ == request_upserted(
                old(store)@,
                row,
            ),
        },
{
    match parse_request(request_data) {
        Ok(row) => Ok(store.upsert_request(row)),
        Err(error) => Err(error),
    }
}

/// Sets the status of every request with the token `flag`.
pub fn update_request_status(store: &mut MirrorStore, flag: &str, status: &str)
    requires
        old(store).wf(),
    ensures
        final(store).wf(),
        final(store)@ == requests_patched(old(store)@, flag@, RequestPatchView::Status(status@)),
{
    store.patch_requests(flag, &RequestPatch::Status(status.to_owned()));
}

/// Marks every request with the token `flag` as read.
pub fn mark_request_read(store: &mut MirrorStore, flag: &str)
    requires
        old(store).wf(),
    ensures
        final(store).wf(),
        final(store)@ == requests_patched(old(store)@, flag@, RequestPatchView::Read),
{
    store.patch_requests(flag, &RequestPatch::Read);
}

/// Deletes every request with the token `flag`.
pub fn delete_request(store: &mut MirrorStore, flag: &str)
    requires
        old(store).wf(),
    ensures
        final(store).wf(),
        final(store)@ == requests_kept(old(store)@, other_flag(flag@)),
{
    let marks = mask_flag(&store.requests, flag);
    let keep = negate(&marks);
    store.keep_requests(&keep, Ghost(other_flag(flag@)));
}

/// Deletes every request that is not pending and returns how many there
/// were.
pub fn clear_history_requests(store: &mut MirrorStore) -> (r: usize)
    requires
        old(store).wf(),
    ensures
        final(store).wf(),
        final(store)@ == requests_kept(old(store)@, is_pending()),
        r == old(store)@.requests.len() - final(store)@.requests.len(),
{
    let keep = mask_status(&store.requests, "pending", false);
    store.keep_requests(&keep, Ghost(is_pending()))
}

/// How many requests are pending and unread.
pub fn get_unread_request_count(store: &MirrorStore) -> (r: usize)
    ensures
        r == store@.requests.filter(is_unread()).len(),
{
    let marks = mask_status(&store.requests, "pending", true);
    proof {
        lemma_picked_views(store.requests@, marks@, is_unread());
        lemma_picked_len(store.requests@, marks@);
    }
    count_marked(&marks)
}

/// Lists requests, latest first: those of the status `status`, or all where
/// none is given, one page of them.
pub fn get_requests(
    store: &MirrorStore,
    status: &Option<String>,
    limit: Option<u32>,
    offset: Option<u32>,
) -> (r: Vec<RelationshipRequest>)
    ensures
        views(r@) == page(
            requests_by_time(store@.requests.filter(with_status(opt_text(*status)))),
            effective_limit(limit),
            effective_offset(offset),
        ),
{
    let marks = match status {
        Some(wanted) => mask_status(&store.requests, wanted.as_str(), false),
        None => {
            let mut all: Vec<bool> = Vec::new();
            let mut i: usize = 0;
            while i < store.requests.len()
                invariant
                    i <= store.requests.len(),
                    all.len() == i,
                    forall|j: int| 0 <= j < i ==> all[j],
                decreases store.requests.len() - i,
            {
                all.push(true);
                i += 1;
            }
            all
        },
    };
    let rows = select(&store.requests, &marks);
    proof {
        lemma_picked_views(store.requests@, marks@, with_status(opt_text(*status)));
    }
    let mut stamps: Vec<i64> = Vec::new();
    let mut i: usize = 0;
    while i < rows.len()
        invariant
            i <= rows.len(),
            stamps.len() == i,
            forall|j: int| 0 <= j < i ==> stamps[j] == (#[trigger] rows[j]).timestamp,
        decreases rows.len() - i,
    {
        stamps.push(rows[i].timestamp);
        i += 1;
    }
    assert(stamps@.map_values(|t: i64| t as int) =~= request_times(views(rows@)));
    let order = order_newest_first(&stamps);
    let bounds = page_bounds(order.len(), limit, offset);
    let ghost sorted = requests_by_time(views(rows@));
    proof {
        assert(sorted.len() == order.len());
        assert forall|k: int| 0 <= k < order.len() implies sorted[k] == rows[order[k] as int]@ by {
            assert(order@.map_values(|p: usize| p as int)[k] == order[k] as int);
        }
    }
    let mut out: Vec<RelationshipRequest> = Vec::new();
    let mut k: usize = bounds.0;
    while k < bounds.1
        invariant
            bounds.0 <= k <= bounds.1 <= order.len(),
            sorted.len() == order.len(),
            forall|j: int| 0 <= j < order.len() ==> #[trigger] order[j] < rows.len(),
            forall|j: int| 0 <= j < order.len() ==> sorted[j] == rows[order[j] as int]@,
            out.len() == k - bounds.0,
            forall|j: int| 0 <= j < out.len() ==> (#[trigger] out[j])@ == sorted[bounds.0 + j],
        decreases bounds.1 - k,
    {
        out.push(rows[order[k]].duplicate());
        k += 1;
    }
    assert(views(out@) =~= page(sorted, effective_limit(limit), effective_offset(offset)));
    out
}

/// Of two requests for the same pair of peer and group, written one after
/// the other, exactly one is left, and it is the second, whole: its id, time,
/// content, status and read flag are its own.
pub proof fn second_request_replaces_first(m: StoreModel, first: RequestRow, second: RequestRow)
    requires
        store_wf(m),
        first.user_id == second.user_id,
        first.group_id == second.group_id,
    ensures
        ({
            let after = request_upserted(request_upserted(m, first), second);
            &&& store_wf(after)
            &&& after.requests.last() == second
            &&& forall|i: int|
                0 <= i < after.requests.len() && (#[trigger] after.requests[i]).user_id
                    == second.user_id && after.requests[i].group_id == second.group_id ==> i
                    == after.requests.len() - 1
            &&& after.requests == m.requests.filter(no_conflict(first)).filter(
                no_conflict(second),
            ).push(second)
        }),
{
    let once = request_upserted(m, first);
    let after = request_upserted(once, second);
    lemma_request_upsert(m, first);
    lemma_request_upsert(once, second);
    reveal(Seq::filter);
    let kept = m.requests.filter(no_conflict(first));
    assert(kept.push(first).drop_last() =~= kept);
    assert(!no_conflict(second)(first));
}

/// Writing a request keeps the store well-formed, and leaves the request as
/// the only one with its id and the only one with its pair.
pub proof fn lemma_request_upsert(m: StoreModel, row: RequestRow)
    requires
        store_wf(m),
    ensures
        store_wf(request_upserted(m, row)),
        request_upserted(m, row).requests.last() == row,
        forall|i: int|
            0 <= i < request_upserted(m, row).requests.len() - 1 ==> no_conflict(row)(
                #[trigger] request_upserted(m, row).requests[i],
            ),
{
    let pred = no_conflict(row);
    lemma_replace_distinct(m.requests, row, pred, request_key());
    lemma_replace_distinct(m.requests, row, pred, request_pair());
    let at = lemma_filter_source(m.requests, pred);
    let kept = m.requests.filter(pred);
    assert forall|i: int| 0 <= i < kept.len() implies pred(#[trigger] kept.push(row)[i]) by {
        assert(kept[i] == m.requests[at[i]]);
    }
}

} // verus!
