//! Checking a store that came from outside: whether each table's keys occur
//! once.

use vstd::prelude::*;
use vstd::string::*;
use crate::rows::distinct_by;
use crate::storage::{
    index_key, message_key, request_key, request_pair, shadow_key, shadow_owner, MirrorStore,
};
use crate::records::opt_int;

verus! {

/// Whether no text occurs twice in `keys`.
pub fn no_repeated_text(keys: &Vec<String>) -> (r: bool)
    ensures
        r == (forall|i: int, j: int| 0 <= i < j < keys.len() ==> keys[i]@ != keys[j]@),
{
    let mut j: usize = 0;
    while j < keys.len()
        invariant
            j <= keys.len(),
            forall|a: int, b: int| 0 <= a < b < j ==> keys[a]@ != keys[b]@,
        decreases keys.len() - j,
    {
        let mut i: usize = 0;
        while i < j
            invariant
                i <= j < keys.len(),
                forall|a: int| 0 <= a < i ==> keys[a]@ != keys[j as int]@,
            decreases j - i,
        {
            if keys[i] == keys[j] {
                return false;
            }
            i += 1;
        }
        j += 1;
    }
    true
}

/// Whether no pair of a number and an optional number occurs twice.
pub fn no_repeated_pair(keys: &Vec<(i64, Option<i64>)>) -> (r: bool)
    ensures
        r == (forall|i: int, j: int| 0 <= i < j < keys.len() ==> keys[i] != keys[j]),
{
    let mut j: usize = 0;
    while j < keys.len()
        invariant
            j <= keys.len(),
            forall|a: int, b: int| 0 <= a < b < j ==> keys[a] != keys[b],
        decreases keys.len() - j,
    {
        let mut i: usize = 0;
        while i < j
            invariant
                i <= j < keys.len(),
                forall|a: int| 0 <= a < i ==> keys[a] != keys[j as int],
            decreases j - i,
        {
            let same_second = match (keys[i].1, keys[j].1) {
                (Some(a), Some(b)) => a == b,
                (None, None) => true,
                _ => false,
            };
            if keys[i].0 == keys[j].0 && same_second {
                return false;
            }
            i += 1;
        }
        j += 1;
    }
    true
}

impl MirrorStore {
    /// Whether the store is well-formed: to be asked of a store that was put
    /// together from rows read elsewhere, before anything else is done with
    /// it.
    pub fn is_well_formed(&self) -> (r: bool)
        ensures
            r == self.wf(),
    {
        let mut message_ids: Vec<String> = Vec::new();
        let mut i: usize = 0;
        while i < self.messages.len()
            invariant
                i <= self.messages.len(),
                message_ids.len() == i,
                forall|k: int|
                    0 <= k < i ==> (#[trigger] message_ids[k])@
                        == self.messages[k]@.local_message_id,
            decreases self.messages.len() - i,
        {
            message_ids.push(self.messages[i].local_message_id.clone());
            i += 1;
        }
        let mut owners: Vec<String> = Vec::new();
        let mut rowids: Vec<(i64, Option<i64>)> = Vec::new();
        let mut in_range = true;
        i = 0;
        while i < self.shadow.len()
            invariant
                i <= self.shadow.len(),
                owners.len() == i,
                rowids.len() == i,
                forall|k: int|
                    0 <= k < i ==> (#[trigger] owners[k])@ == self.shadow[k]@.local_message_id,
                forall|k: int|
                    0 <= k < i ==> #[trigger] rowids[k] == (self.shadow[k].rowid, None::<i64>),
                in_range == (forall|k: int|
                    0 <= k < i ==> 1 <= (#[trigger] self.shadow[k]).rowid < self.next_rowid),
            decreases self.shadow.len() - i,
        {
            owners.push(self.shadow[i].local_message_id.clone());
            rowids.push((self.shadow[i].rowid, None));
            if !(1 <= self.shadow[i].rowid && self.shadow[i].rowid < self.next_rowid) {
                in_range = false;
            }
            i += 1;
        }
        let mut entries: Vec<(i64, Option<i64>)> = Vec::new();
        i = 0;
        while i < self.index.len()
            invariant
                i <= self.index.len(),
                entries.len() == i,
                forall|k: int|
                    0 <= k < i ==> #[trigger] entries[k] == (self.index[k].rowid, None::<i64>),
            decreases self.index.len() - i,
        {
            entries.push((self.index[i].rowid, None));
            i += 1;
        }
        let mut request_ids: Vec<String> = Vec::new();
        let mut pairs: Vec<(i64, Option<i64>)> = Vec::new();
        i = 0;
        while i < self.requests.len()
            invariant
                i <= self.requests.len(),
                request_ids.len() == i,
                pairs.len() == i,
                forall|k: int| 0 <= k < i ==> (#[trigger] request_ids[k])@ == self.requests[k]@.id,
                forall|k: int|
                    0 <= k < i ==> #[trigger] pairs[k] == (
                        self.requests[k].user_id,
                        self.requests[k].group_id,
                    ),
            decreases self.requests.len() - i,
        {
            request_ids.push(self.requests[i].id.clone());
            pairs.push((self.requests[i].user_id, self.requests[i].group_id));
            i += 1;
        }
        let messages_ok = no_repeated_text(&message_ids);
        let owners_ok = no_repeated_text(&owners);
        let rowids_ok = no_repeated_pair(&rowids);
        let entries_ok = no_repeated_pair(&entries);
        let ids_ok = no_repeated_text(&request_ids);
        let pairs_ok = no_repeated_pair(&pairs);
        proof {
            let m = self@;
            assert(messages_ok == distinct_by(m.messages, message_key())) by {
                assert forall|k: int| 0 <= k < m.messages.len() implies message_key()(
                    #[trigger] m.messages[k],
                ) == message_ids[k]@ by {}
                if messages_ok {
                    assert forall|a: int, b: int| 0 <= a < b < m.messages.len() implies message_key()(
                        m.messages[a],
                    ) != message_key()(m.messages[b]) by {
                        assert(message_ids[a]@ != message_ids[b]@);
                    }
                } else {
                    let (a, b) = choose|a: int, b: int|
                        0 <= a < b < message_ids.len() && message_ids[a]@ == message_ids[b]@;
                    assert(message_key()(m.messages[a]) == message_key()(m.messages[b]));
                }
            }
            assert(owners_ok == distinct_by(m.shadow, shadow_owner())) by {
                assert forall|k: int| 0 <= k < m.shadow.len() implies shadow_owner()(
                    #[trigger] m.shadow[k],
                ) == owners[k]@ by {}
                if owners_ok {
                    assert forall|a: int, b: int| 0 <= a < b < m.shadow.len() implies shadow_owner()(
                        m.shadow[a],
                    ) != shadow_owner()(m.shadow[b]) by {
                        assert(owners[a]@ != owners[b]@);
                    }
                } else {
                    let (a, b) = choose|a: int, b: int|
                        0 <= a < b < owners.len() && owners[a]@ == owners[b]@;
                    assert(shadow_owner()(m.shadow[a]) == shadow_owner()(m.shadow[b]));
                }
            }
            assert(rowids_ok == distinct_by(m.shadow, shadow_key())) by {
                assert forall|k: int| 0 <= k < m.shadow.len() implies shadow_key()(
                    #[trigger] m.shadow[k],
                ) == rowids[k].0 by {}
                if rowids_ok {
                    assert forall|a: int, b: int| 0 <= a < b < m.shadow.len() implies shadow_key()(
                        m.shadow[a],
                    ) != shadow_key()(m.shadow[b]) by {
                        assert(rowids[a] != rowids[b]);
                    }
                } else {
                    let (a, b) = choose|a: int, b: int|
                        0 <= a < b < rowids.len() && rowids[a] == rowids[b];
                    assert(shadow_key()(m.shadow[a]) == shadow_key()(m.shadow[b]));
                }
            }
            assert(entries_ok == distinct_by(m.index, index_key())) by {
                assert forall|k: int| 0 <= k < m.index.len() implies index_key()(
                    #[trigger] m.index[k],
                ) == entries[k].0 by {}
                if entries_ok {
                    assert forall|a: int, b: int| 0 <= a < b < m.index.len() implies index_key()(
                        m.index[a],
                    ) != index_key()(m.index[b]) by {
                        assert(entries[a] != entries[b]);
                    }
                } else {
                    let (a, b) = choose|a: int, b: int|
                        0 <= a < b < entries.len() && entries[a] == entries[b];
                    assert(index_key()(m.index[a]) == index_key()(m.index[b]));
                }
            }
            assert(ids_ok == distinct_by(m.requests, request_key())) by {
                assert forall|k: int| 0 <= k < m.requests.len() implies request_key()(
                    #[trigger] m.requests[k],
                ) == request_ids[k]@ by {}
                if ids_ok {
                    assert forall|a: int, b: int| 0 <= a < b < m.requests.len() implies request_key()(
                        m.requests[a],
                    ) != request_key()(m.requests[b]) by {
                        assert(request_ids[a]@ != request_ids[b]@);
                    }
                } else {
                    let (a, b) = choose|a: int, b: int|
                        0 <= a < b < request_ids.len() && request_ids[a]@ == request_ids[b]@;
                    assert(request_key()(m.requests[a]) == request_key()(m.requests[b]));
                }
            }
            assert(pairs_ok == distinct_by(m.requests, request_pair())) by {
                assert forall|k: int| 0 <= k < m.requests.len() implies request_pair()(
                    #[trigger] m.requests[k],
                ) == (pairs[k].0 as int, opt_int(pairs[k].1)) by {}
                if pairs_ok {
                    assert forall|a: int, b: int| 0 <= a < b < m.requests.len() implies request_pair()(
                        m.requests[a],
                    ) != request_pair()(m.requests[b]) by {
                        assert(pairs[a] != pairs[b]);
                    }
                } else {
                    let (a, b) = choose|a: int, b: int|
                        0 <= a < b < pairs.len() && pairs[a] == pairs[b];
                    assert(request_pair()(m.requests[a]) == request_pair()(m.requests[b]));
                }
            }
            assert(in_range == (forall|k: int|
                0 <= k < m.shadow.len() ==> 1 <= (#[trigger] m.shadow[k]).rowid < m.next_rowid))
                by {
                if in_range {
                    assert forall|k: int| 0 <= k < m.shadow.len() implies 1 <= (
                    #[trigger] m.shadow[k]).rowid < m.next_rowid by {
                        assert(m.shadow[k] == self.shadow[k]@);
                    }
                } else {
                    let k = choose|k: int|
                        0 <= k < self.shadow.len() && !(1 <= (#[trigger] self.shadow[k]).rowid
                            < self.next_rowid);
                    assert(m.shadow[k] == self.shadow[k]@);
                }
            }
        }
        messages_ok && owners_ok && rowids_ok && entries_ok && ids_ok && pairs_ok && in_range
            && 1 <= self.next_rowid
    }
}

} // verus!
