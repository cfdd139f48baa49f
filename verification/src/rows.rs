//! Sequences of rows: selecting by a mask, keys that occur once, and the
//! order of rows by time.

use vstd::prelude::*;

verus! {

/// The items of `items` whose mark in `keep` is set, in order.
pub open spec fn picked<T>(items: Seq<T>, keep: Seq<bool>) -> Seq<T>
    decreases items.len(),
{
    if items.len() == 0 || keep.len() != items.len() {
        Seq::empty()
    } else if keep.last() {
        picked(items.drop_last(), keep.drop_last()).push(items.last())
    } else {
        picked(items.drop_last(), keep.drop_last())
    }
}

/// The rows as plain values.
pub open spec fn views<T: View>(items: Seq<T>) -> Seq<T::V> {
    items.map_values(|item: T| item@)
}

/// A value that can be copied field by field.
pub trait Duplicate: Sized {
    /// A copy of the value.
    fn copy_of(&self) -> (r: Self)
        ensures
            r == *self,
    ;
}

/// The items of `items` whose mark in `keep` is set, copied in order.
pub fn select<T: Duplicate>(items: &Vec<T>, keep: &Vec<bool>) -> (out: Vec<T>)
    requires
        keep.len() == items.len(),
    ensures
        out@ == picked(items@, keep@),
{
    let mut out: Vec<T> = Vec::new();
    let mut i: usize = 0;
    while i < items.len()
        invariant
            i <= items.len(),
            keep.len() == items.len(),
            out@ == picked(items@.subrange(0, i as int), keep@.subrange(0, i as int)),
        decreases items.len() - i,
    {
        proof {
            assert(items@.subrange(0, i + 1).drop_last() =~= items@.subrange(0, i as int));
            assert(keep@.subrange(0, i + 1).drop_last() =~= keep@.subrange(0, i as int));
        }
        if keep[i] {
            out.push(items[i].copy_of());
        }
        i += 1;
    }
    proof {
        assert(items@.subrange(0, i as int) =~= items@);
        assert(keep@.subrange(0, i as int) =~= keep@);
    }
    out
}

/// Picking by a mask that agrees with a predicate on the rows' plain values
/// is filtering the plain values by it.
pub proof fn lemma_picked_views<T: View>(
    items: Seq<T>,
    keep: Seq<bool>,
    pred: spec_fn(T::V) -> bool,
)
    requires
        keep.len() == items.len(),
        forall|i: int| 0 <= i < items.len() ==> keep[i] == pred(#[trigger] items[i]@),
    ensures
        views(picked(items, keep)) == views(items).filter(pred),
    decreases items.len(),
{
    reveal(Seq::filter);
    if items.len() > 0 {
        lemma_picked_views(items.drop_last(), keep.drop_last(), pred);
        assert(views(items).drop_last() =~= views(items.drop_last()));
        assert(views(items).last() == items.last()@);
        let rest = picked(items.drop_last(), keep.drop_last());
        assert(views(rest.push(items.last())) =~= views(rest).push(items.last()@));
    } else {
        assert(views(picked(items, keep)) =~= views(items).filter(pred));
    }
}

/// Replacing the rows that share a key with `row` by `row` keeps keys
/// distinct.
pub proof fn lemma_replace_distinct<T, K>(
    rows: Seq<T>,
    row: T,
    pred: spec_fn(T) -> bool,
    key: spec_fn(T) -> K,
)
    requires
        distinct_by(rows, key),
        forall|r: T| #[trigger] pred(r) ==> key(r) != key(row),
    ensures
        distinct_by(rows.filter(pred).push(row), key),
{
    lemma_filter_distinct(rows, pred, key);
    let at = lemma_filter_source(rows, pred);
    let kept = rows.filter(pred);
    assert forall|i: int| 0 <= i < kept.len() implies key(kept[i]) != key(row) by {
        assert(kept[i] == rows[at[i]] && pred(rows[at[i]]));
    }
    lemma_push_distinct(kept, row, key);
}

/// The first row of `rows` that meets `pred`, if one does.
pub open spec fn first_where<T>(rows: Seq<T>, pred: spec_fn(T) -> bool) -> Option<T>
    decreases rows.len(),
{
    if rows.len() == 0 {
        None
    } else {
        match first_where(rows.drop_last(), pred) {
            Some(row) => Some(row),
            None => if pred(rows.last()) {
                Some(rows.last())
            } else {
                None
            },
        }
    }
}

/// The first row that meets a predicate is the row at the first position
/// that meets it, and it meets the predicate; where no position does, there
/// is none.
pub proof fn lemma_first_where<T>(rows: Seq<T>, pred: spec_fn(T) -> bool)
    ensures
        first_where(rows, pred) is None <==> forall|i: int|
            0 <= i < rows.len() ==> !pred(#[trigger] rows[i]),
        first_where(rows, pred) is Some ==> pred(first_where(rows, pred)->0),
        forall|i: int|
            0 <= i < rows.len() && pred(#[trigger] rows[i]) && (forall|j: int|
                0 <= j < i ==> !pred(#[trigger] rows[j])) ==> first_where(rows, pred) == Some(
                rows[i],
            ),
    decreases rows.len(),
{
    if rows.len() > 0 {
        let shorter = rows.drop_last();
        lemma_first_where(shorter, pred);
        assert forall|i: int| 0 <= i < shorter.len() implies shorter[i] == rows[i] by {}
        if first_where(shorter, pred) is None {
            assert forall|i: int| 0 <= i < rows.len() - 1 implies !pred(#[trigger] rows[i]) by {
                assert(shorter[i] == rows[i]);
            }
        } else {
            let k = choose|k: int| 0 <= k < shorter.len() && pred(#[trigger] shorter[k]);
            assert(pred(rows[k]));
        }
        assert forall|i: int|
            0 <= i < rows.len() && pred(#[trigger] rows[i]) && (forall|j: int|
                0 <= j < i ==> !pred(#[trigger] rows[j])) implies first_where(rows, pred) == Some(
            rows[i],
        ) by {
            if i < rows.len() - 1 {
                assert(shorter[i] == rows[i]);
                assert forall|j: int| 0 <= j < i implies !pred(#[trigger] shorter[j]) by {
                    assert(shorter[j] == rows[j]);
                }
            } else {
                assert forall|j: int| 0 <= j < shorter.len() implies !pred(#[trigger] shorter[j]) by {
                    assert(shorter[j] == rows[j]);
                }
            }
        }
    }
}

/// The first position whose mark is set.
pub fn first_marked(marks: &Vec<bool>) -> (r: Option<usize>)
    ensures
        r is Some ==> r.unwrap() < marks.len() && marks[r.unwrap() as int] && forall|j: int|
            0 <= j < r.unwrap() ==> !marks[j],
        r is None ==> forall|j: int| 0 <= j < marks.len() ==> !marks[j],
{
    let mut i: usize = 0;
    while i < marks.len()
        invariant
            i <= marks.len(),
            forall|j: int| 0 <= j < i ==> !marks[j],
        decreases marks.len() - i,
    {
        if marks[i] {
            return Some(i);
        }
        i += 1;
    }
    None
}

/// How many marks are set.
pub open spec fn count_set(marks: Seq<bool>) -> nat
    decreases marks.len(),
{
    if marks.len() == 0 {
        0
    } else if marks.last() {
        count_set(marks.drop_last()) + 1
    } else {
        count_set(marks.drop_last())
    }
}

/// As many rows are picked as marks are set.
pub proof fn lemma_picked_len<T>(items: Seq<T>, keep: Seq<bool>)
    requires
        keep.len() == items.len(),
    ensures
        picked(items, keep).len() == count_set(keep),
        count_set(keep) <= keep.len(),
    decreases items.len(),
{
    if items.len() > 0 {
        lemma_picked_len(items.drop_last(), keep.drop_last());
    }
}

/// Counts the marks that are set.
pub fn count_marked(marks: &Vec<bool>) -> (r: usize)
    ensures
        r == count_set(marks@),
{
    let mut count: usize = 0;
    let mut i: usize = 0;
    while i < marks.len()
        invariant
            i <= marks.len(),
            count == count_set(marks@.subrange(0, i as int)),
            count <= i,
        decreases marks.len() - i,
    {
        proof {
            assert(marks@.subrange(0, i + 1).drop_last() =~= marks@.subrange(0, i as int));
        }
        if marks[i] {
            count += 1;
        }
        i += 1;
    }
    proof {
        assert(marks@.subrange(0, i as int) =~= marks@);
    }
    count
}

/// No two rows of `rows` have the same key.
pub open spec fn distinct_by<T, K>(rows: Seq<T>, key: spec_fn(T) -> K) -> bool {
    forall|i: int, j: int| 0 <= i < j < rows.len() ==> key(rows[i]) != key(rows[j])
}

/// Every row that a filter keeps is a row of the filtered sequence that
/// meets the predicate, and the rows that are kept stay in order.
pub proof fn lemma_filter_source<T>(rows: Seq<T>, pred: spec_fn(T) -> bool) -> (at: Seq<int>)
    ensures
        at.len() == rows.filter(pred).len(),
        forall|k: int|
            0 <= k < at.len() ==> 0 <= #[trigger] at[k] < rows.len() && rows[at[k]]
                == rows.filter(pred)[k] && pred(rows[at[k]]),
        forall|k: int, l: int| 0 <= k < l < at.len() ==> at[k] < at[l],
        forall|i: int|
            0 <= i < rows.len() && pred(rows[i]) ==> exists|k: int|
                0 <= k < at.len() && at[k] == i,
    decreases rows.len(),
{
    reveal(Seq::filter);
    if rows.len() == 0 {
        Seq::empty()
    } else {
        let rest = lemma_filter_source(rows.drop_last(), pred);
        let at = if pred(rows.last()) {
            rest.push(rows.len() - 1)
        } else {
            rest
        };
        assert forall|i: int| 0 <= i < rows.len() && pred(rows[i]) implies exists|k: int|
            0 <= k < at.len() && at[k] == i by {
            if i < rows.len() - 1 {
                assert(rows.drop_last()[i] == rows[i]);
                let k = choose|k: int| 0 <= k < rest.len() && rest[k] == i;
                assert(at[k] == i);
            } else {
                assert(at[at.len() - 1] == i);
            }
        }
        at
    }
}

/// Filtering twice is filtering by both predicates at once.
pub proof fn lemma_filter_twice<T>(
    rows: Seq<T>,
    first: spec_fn(T) -> bool,
    second: spec_fn(T) -> bool,
    both: spec_fn(T) -> bool,
)
    requires
        forall|row: T| #[trigger] both(row) == (first(row) && second(row)),
    ensures
        rows.filter(first).filter(second) == rows.filter(both),
    decreases rows.len(),
{
    reveal(Seq::filter);
    if rows.len() > 0 {
        lemma_filter_twice(rows.drop_last(), first, second, both);
        let kept = rows.drop_last().filter(first);
        if first(rows.last()) {
            assert(kept.push(rows.last()).drop_last() =~= kept);
        }
    }
}

/// A filter that every row meets keeps every row.
pub proof fn lemma_filter_all<T>(rows: Seq<T>, pred: spec_fn(T) -> bool)
    requires
        forall|i: int| 0 <= i < rows.len() ==> pred(#[trigger] rows[i]),
    ensures
        rows.filter(pred) == rows,
    decreases rows.len(),
{
    reveal(Seq::filter);
    if rows.len() > 0 {
        let shorter = rows.drop_last();
        assert forall|i: int| 0 <= i < shorter.len() implies pred(#[trigger] shorter[i]) by {
            assert(shorter[i] == rows[i]);
        }
        lemma_filter_all(shorter, pred);
        assert(shorter.push(rows.last()) =~= rows);
    }
}

/// Filtering out the one row with a key, among rows of distinct keys, leaves
/// one row less.
pub proof fn lemma_filter_one_out<T, K>(
    rows: Seq<T>,
    key: spec_fn(T) -> K,
    gone: K,
    others: spec_fn(T) -> bool,
)
    requires
        distinct_by(rows, key),
        forall|row: T| #[trigger] others(row) == (key(row) != gone),
        exists|i: int| 0 <= i < rows.len() && key(#[trigger] rows[i]) == gone,
    ensures
        rows.filter(others).len() == rows.len() - 1,
    decreases rows.len(),
{
    reveal(Seq::filter);
    let shorter = rows.drop_last();
    assert forall|i: int| 0 <= i < shorter.len() implies shorter[i] == rows[i] by {}
    if key(rows.last()) == gone {
        assert forall|i: int| 0 <= i < shorter.len() implies others(#[trigger] shorter[i]) by {
            assert(key(rows[i]) != key(rows[rows.len() - 1]));
        }
        lemma_filter_all(shorter, others);
    } else {
        let at = choose|i: int| 0 <= i < rows.len() && key(#[trigger] rows[i]) == gone;
        assert(key(shorter[at]) == gone);
        assert(distinct_by(shorter, key)) by {
            assert forall|a: int, b: int| 0 <= a < b < shorter.len() implies key(shorter[a]) != key(
                shorter[b],
            ) by {
                assert(key(rows[a]) != key(rows[b]));
            }
        }
        lemma_filter_one_out(shorter, key, gone, others);
    }
}

/// Filtering keeps keys distinct.
pub proof fn lemma_filter_distinct<T, K>(rows: Seq<T>, pred: spec_fn(T) -> bool, key: spec_fn(T) -> K)
    requires
        distinct_by(rows, key),
    ensures
        distinct_by(rows.filter(pred), key),
{
    let at = lemma_filter_source(rows, pred);
    let kept = rows.filter(pred);
    assert forall|i: int, j: int| 0 <= i < j < kept.len() implies key(kept[i]) != key(kept[j]) by {
        assert(at[i] < at[j]);
        assert(kept[i] == rows[at[i]]);
        assert(kept[j] == rows[at[j]]);
    }
}

/// A row pushed behind rows that all have other keys keeps keys distinct.
pub proof fn lemma_push_distinct<T, K>(rows: Seq<T>, row: T, key: spec_fn(T) -> K)
    requires
        distinct_by(rows, key),
        forall|i: int| 0 <= i < rows.len() ==> key(rows[i]) != key(row),
    ensures
        distinct_by(rows.push(row), key),
{
}

/// The positions `order` with position `i` put in its place by time: behind
/// every position whose time is not earlier.
pub open spec fn insert_by_time(order: Seq<int>, stamps: Seq<int>, i: int) -> Seq<int>
    decreases order.len(),
{
    if order.len() == 0 {
        seq![i]
    } else if stamps[order.last()] >= stamps[i] {
        order.push(i)
    } else {
        insert_by_time(order.drop_last(), stamps, i).push(order.last())
    }
}

/// The first `n` positions of `stamps`, latest time first; positions with the
/// same time keep their order.
pub open spec fn order_upto(stamps: Seq<int>, n: nat) -> Seq<int>
    decreases n,
{
    if n == 0 {
        Seq::empty()
    } else {
        insert_by_time(order_upto(stamps, (n - 1) as nat), stamps, n - 1)
    }
}

/// The positions of `stamps`, latest time first.
pub open spec fn newest_first(stamps: Seq<int>) -> Seq<int> {
    order_upto(stamps, stamps.len())
}

/// `order` lists positions of `stamps`, each at most once, latest time first
/// and, for equal times, lowest position first.
pub open spec fn is_time_order(order: Seq<int>, stamps: Seq<int>) -> bool {
    &&& forall|k: int| 0 <= k < order.len() ==> 0 <= #[trigger] order[k] < stamps.len()
    &&& forall|k: int, l: int|
        0 <= k < l < order.len() ==> stamps[order[k]] > stamps[order[l]] || (stamps[order[k]]
            == stamps[order[l]] && order[k] < order[l])
}

/// Inserting at position `at` is `insert_by_time`, where every position from
/// `at` on is earlier than `i` and the one before `at`, if any, is not.
pub proof fn lemma_insert_position(order: Seq<int>, stamps: Seq<int>, i: int, at: int)
    requires
        0 <= at <= order.len(),
        forall|k: int| at <= k < order.len() ==> stamps[order[k]] < stamps[i],
        at > 0 ==> stamps[order[at - 1]] >= stamps[i],
    ensures
        insert_by_time(order, stamps, i) == order.insert(at, i),
    decreases order.len(),
{
    if order.len() == 0 {
        assert(order.insert(at, i) =~= seq![i]);
    } else if at == order.len() {
        assert(order.insert(at, i) =~= order.push(i));
    } else {
        lemma_insert_position(order.drop_last(), stamps, i, at);
        assert(order.drop_last().insert(at, i).push(order.last()) =~= order.insert(at, i));
    }
}

/// Inserting a new, higher position keeps a time order, adds that position
/// and loses none.
pub proof fn lemma_insert_keeps_order(order: Seq<int>, stamps: Seq<int>, i: int)
    requires
        is_time_order(order, stamps),
        0 <= i < stamps.len(),
        forall|k: int| 0 <= k < order.len() ==> order[k] < i,
    ensures
        is_time_order(insert_by_time(order, stamps, i), stamps),
        insert_by_time(order, stamps, i).len() == order.len() + 1,
        forall|k: int|
            0 <= k < order.len() + 1 ==> #[trigger] insert_by_time(order, stamps, i)[k] <= i,
        insert_by_time(order, stamps, i).contains(i),
        forall|p: int| order.contains(p) ==> insert_by_time(order, stamps, i).contains(p),
{
    let at = insert_place(order, stamps, i);
    lemma_insert_place(order, stamps, i);
    lemma_insert_position(order, stamps, i, at);
    let next = order.insert(at, i);
    assert(next[at] == i);
    assert forall|p: int| order.contains(p) implies next.contains(p) by {
        let k = choose|k: int| 0 <= k < order.len() && order[k] == p;
        if k < at {
            assert(next[k] == p);
        } else {
            assert(next[k + 1] == p);
        }
    }
    assert forall|k: int, l: int| 0 <= k < l < next.len() implies stamps[next[k]] > stamps[next[l]]
        || (stamps[next[k]] == stamps[next[l]] && next[k] < next[l]) by {
        if l < at {
        } else if l == at {
            assert(next[k] == order[k]);
            if at > 0 {
                assert(stamps[order[at - 1]] >= stamps[i]);
                if k < at - 1 {
                    assert(stamps[order[k]] > stamps[order[at - 1]] || (stamps[order[k]]
                        == stamps[order[at - 1]]));
                }
            }
        } else if k == at {
            assert(next[l] == order[l - 1]);
        } else if k < at {
            assert(next[k] == order[k]);
            assert(next[l] == order[l - 1]);
        } else {
            assert(next[k] == order[k - 1]);
            assert(next[l] == order[l - 1]);
        }
    }
}

/// The place at which `insert_by_time` puts position `i`.
pub open spec fn insert_place(order: Seq<int>, stamps: Seq<int>, i: int) -> int
    decreases order.len(),
{
    if order.len() == 0 {
        0
    } else if stamps[order.last()] >= stamps[i] {
        order.len() as int
    } else {
        insert_place(order.drop_last(), stamps, i)
    }
}

proof fn lemma_insert_place(order: Seq<int>, stamps: Seq<int>, i: int)
    ensures
        0 <= insert_place(order, stamps, i) <= order.len(),
        forall|k: int|
            insert_place(order, stamps, i) <= k < order.len() ==> stamps[order[k]] < stamps[i],
        insert_place(order, stamps, i) > 0 ==> stamps[order[insert_place(order, stamps, i) - 1]]
            >= stamps[i],
    decreases order.len(),
{
    if order.len() > 0 && stamps[order.last()] < stamps[i] {
        let shorter = order.drop_last();
        lemma_insert_place(shorter, stamps, i);
        let place = insert_place(shorter, stamps, i);
        assert forall|k: int| place <= k < order.len() implies stamps[order[k]] < stamps[i] by {
            if k < shorter.len() {
                assert(shorter[k] == order[k]);
            }
        }
        if place > 0 {
            assert(shorter[place - 1] == order[place - 1]);
        }
    }
}

/// The order by time lists every position once, latest time first, and
/// positions with the same time in their own order.
pub proof fn lemma_newest_first(stamps: Seq<int>, n: nat)
    requires
        n <= stamps.len(),
    ensures
        order_upto(stamps, n).len() == n,
        is_time_order(order_upto(stamps, n), stamps),
        forall|k: int| 0 <= k < n ==> #[trigger] order_upto(stamps, n)[k] < n,
        forall|p: int| 0 <= p < n ==> order_upto(stamps, n).contains(p),
    decreases n,
{
    if n > 0 {
        let before = order_upto(stamps, (n - 1) as nat);
        lemma_newest_first(stamps, (n - 1) as nat);
        lemma_insert_keeps_order(before, stamps, n - 1);
        let order = order_upto(stamps, n);
        assert forall|k: int| 0 <= k < n implies #[trigger] order[k] < n by {
            assert(order[k] <= n - 1);
        }
        assert forall|p: int| 0 <= p < n implies order.contains(p) by {
            if p < n - 1 {
                assert(before.contains(p));
            }
        }
    }
}

/// Orders the positions of `stamps` by time, latest first.
pub fn order_newest_first(stamps: &Vec<i64>) -> (order: Vec<usize>)
    ensures
        order@.map_values(|p: usize| p as int) == newest_first(stamps@.map_values(|t: i64| t as int)),
        order.len() == stamps.len(),
        forall|k: int| 0 <= k < order.len() ==> #[trigger] order[k] < stamps.len(),
{
    let ghost times = stamps@.map_values(|t: i64| t as int);
    let mut order: Vec<usize> = Vec::new();
    let mut n: usize = 0;
    while n < stamps.len()
        invariant
            n <= stamps.len(),
            times == stamps@.map_values(|t: i64| t as int),
            order@.map_values(|p: usize| p as int) == order_upto(times, n as nat),
            order.len() == n,
            forall|k: int| 0 <= k < order.len() ==> #[trigger] order[k] < n,
        decreases stamps.len() - n,
    {
        let ghost before = order@.map_values(|p: usize| p as int);
        let mut at: usize = order.len();
        while at > 0 && stamps[order[at - 1]] < stamps[n]
            invariant
                at <= order.len(),
                n < stamps.len(),
                order.len() == n,
                times == stamps@.map_values(|t: i64| t as int),
                before == order@.map_values(|p: usize| p as int),
                forall|k: int| 0 <= k < order.len() ==> #[trigger] order[k] < n,
                forall|k: int| at <= k < order.len() ==> times[before[k]] < times[n as int],
            decreases at,
        {
            at -= 1;
        }
        proof {
            lemma_insert_position(before, times, n as int, at as int);
        }
        order.insert(at, n);
        assert(order@.map_values(|p: usize| p as int) =~= before.insert(at as int, n as int));
        n += 1;
    }
    proof {
        lemma_newest_first(times, stamps.len() as nat);
    }
    order
}

/// Where a page of `len` rows starts: behind the first `offset` rows, or at
/// the end where there are no more.
pub open spec fn page_from(len: int, offset: int) -> int {
    if offset < len {
        offset
    } else {
        len
    }
}

/// Where a page of `len` rows ends: `limit` rows behind its start, or at the
/// end where there are no more.
pub open spec fn page_to(len: int, limit: int, offset: int) -> int {
    if page_from(len, offset) + limit < len {
        page_from(len, offset) + limit
    } else {
        len
    }
}

/// The part of `rows` that a page shows: the first `offset` rows are
/// skipped, and of those that follow `limit` at most are kept.
pub open spec fn page<T>(rows: Seq<T>, limit: int, offset: int) -> Seq<T> {
    rows.subrange(
        page_from(rows.len() as int, offset),
        page_to(rows.len() as int, limit, offset),
    )
}

/// The limit that a query applies: the count asked for, 100 where none was.
pub open spec fn effective_limit(limit: Option<u32>) -> int {
    match limit {
        None => 100,
        Some(count) => count as int,
    }
}

/// The offset that a query applies: the one asked for, 0 where none was.
pub open spec fn effective_offset(offset: Option<u32>) -> int {
    match offset {
        None => 0,
        Some(skip) => skip as int,
    }
}

/// The bounds `from..to` of the page of `len` rows.
pub fn page_bounds(len: usize, limit: Option<u32>, offset: Option<u32>) -> (r: (usize, usize))
    ensures
        r.0 <= r.1 <= len,
        r.0 == page_from(len as int, effective_offset(offset)),
        r.1 == page_to(len as int, effective_limit(limit), effective_offset(offset)),
{
    let skip: usize = match offset {
        None => 0,
        Some(skip) => skip as usize,
    };
    let from: usize = if skip < len {
        skip
    } else {
        len
    };
    let count: usize = match limit {
        None => 100,
        Some(count) => count as usize,
    };
    let to: usize = if count < len - from {
        from + count
    } else {
        len
    };
    (from, to)
}

} // verus!
