//! The table of requests that wait for their reply.

use vstd::prelude::*;
use crate::outside::{slot_entries, slot_send, slots_ids, slots_insert, slots_new, slots_remove, ResponseSender, SlotMap};

verus! {

/// The id that the counter gives out after `id`. The counter is 64 bits wide
/// and wraps.
pub open spec fn id_after(id: u64) -> u64 {
    if id == u64::MAX {
        0
    } else {
        (id + 1) as u64
    }
}

/// The characters of the reply that a waiter gets when its connection is lost.
pub open spec fn connection_closed() -> Seq<char> {
    "{\"error\":\"connection closed\"}"@
}

/// The reply that a waiter gets when its connection is lost.
pub fn connection_closed_text() -> (text: String)
    ensures
        text@ == connection_closed(),
{
    "{\"error\":\"connection closed\"}".to_owned()
}

/// The slot that a reply with this id completes: the one filed under the id.
pub open spec fn completed(table: Map<u64, ResponseSender>, id: u64) -> Option<ResponseSender> {
    if table.contains_key(id) {
        Some(table[id])
    } else {
        None
    }
}

/// The table after replies with these ids have arrived in this order.
pub open spec fn after_replies(table: Map<u64, ResponseSender>, ids: Seq<u64>) -> Map<
    u64,
    ResponseSender,
>
    decreases ids.len(),
{
    if ids.len() == 0 {
        table
    } else {
        after_replies(table, ids.drop_last()).remove(ids.last())
    }
}

/// Replies may arrive in any order. If requests wait under distinct ids and
/// their replies arrive one after the other, in whatever order, then each
/// reply completes the slot that was filed under its id, and in the end
/// exactly those requests have left the table.
#[verifier::spinoff_prover]
#[verifier::rlimit(50)]
pub proof fn lemma_replies_in_any_order(table: Map<u64, ResponseSender>, ids: Seq<u64>)
    requires
        ids.no_duplicates(),
        forall|k: int| 0 <= k < ids.len() ==> table.contains_key(#[trigger] ids[k]),
    ensures
        forall|k: int|
            0 <= k < ids.len() ==> completed(after_replies(table, ids.take(k)), #[trigger] ids[k])
                == Some(table[ids[k]]),
        after_replies(table, ids) == table.remove_keys(ids.to_set()),
    decreases ids.len(),
{
    if ids.len() == 0 {
        assert(table.remove_keys(ids.to_set()) =~= table);
    } else {
        let front = ids.drop_last();
        lemma_replies_in_any_order(table, front);
        assert forall|k: int| 0 <= k < ids.len() implies completed(
            after_replies(table, ids.take(k)),
            #[trigger] ids[k],
        ) == Some(table[ids[k]]) by {
            if k < front.len() {
                assert(ids.take(k) =~= front.take(k));
                assert(ids[k] == front[k]);
            } else {
                assert(ids.take(k) =~= front);
                assert(!front.to_set().contains(ids[k])) by {
                    if front.to_set().contains(ids[k]) {
                        let j = choose|j: int| 0 <= j < front.len() && front[j] == ids[k];
                        assert(ids[j] == ids[k]);
                    }
                }
            }
        }
        assert(ids.to_set() =~= front.to_set().insert(ids.last())) by {
            assert forall|id: u64| ids.to_set().contains(id) <==> front.to_set().insert(
                ids.last(),
            ).contains(id) by {
                if ids.to_set().contains(id) {
                    let j = choose|j: int| 0 <= j < ids.len() && ids[j] == id;
                    if j < front.len() {
                        assert(front[j] == id);
                    }
                }
                if front.to_set().contains(id) {
                    let j = choose|j: int| 0 <= j < front.len() && front[j] == id;
                    assert(ids[j] == id);
                }
            }
        }
        assert(table.remove_keys(front.to_set()).remove(ids.last()) =~= table.remove_keys(
            ids.to_set(),
        ));
    }
}

/// Requests in flight: for each id the slot that completes its caller, and
/// the counter that ids come from.
pub struct PendingRequests {
    slots: SlotMap,
    next_id: u64,
}

impl View for PendingRequests {
    type V = Map<u64, ResponseSender>;

    /// The waiting slots by request id.
    closed spec fn view(&self) -> Map<u64, ResponseSender> {
        slot_entries(self.slots)
    }
}

impl PendingRequests {
    /// The id that the next request will get.
    pub closed spec fn spec_next_id(&self) -> u64 {
        self.next_id
    }

    /// Every waiting id was given out by the counter and the counter has not
    /// come round to it again.
    pub open spec fn ids_are_past(&self) -> bool {
        forall|id: u64| self@.contains_key(id) ==> 1 <= id < self.spec_next_id()
    }

    /// An empty table whose first id is 1.
    pub fn new() -> (table: PendingRequests)
        ensures
            table@ =~= Map::empty(),
            table.spec_next_id() == 1,
            table.ids_are_past(),
    {
        PendingRequests { slots: slots_new(), next_id: 1 }
    }

    /// The id that the next request will get.
    pub fn next_id(&self) -> (id: u64)
        ensures
            id == self.spec_next_id(),
    {
        self.next_id
    }

    /// Takes the next id from the counter and files the slot under it.
    pub fn register(&mut self, slot: ResponseSender) -> (id: u64)
        ensures
            id == old(self).spec_next_id(),
            final(self).spec_next_id() == id_after(id),
            final(self)@ == old(self)@.insert(id, slot),
            old(self).ids_are_past() ==> !old(self)@.contains_key(id),
            old(self).ids_are_past() && 1 <= id < u64::MAX ==> final(self).ids_are_past(),
    {
        let id = self.next_id;
        self.next_id = if id == u64::MAX {
            0
        } else {
            id + 1
        };
        let _ = slots_insert(&mut self.slots, id, slot);
        id
    }

    /// Removes the entry under `id` and hands its slot out.
    pub fn take(&mut self, id: u64) -> (slot: Option<ResponseSender>)
        ensures
            slot == completed(old(self)@, id),
            final(self)@ == old(self)@.remove(id),
            final(self).spec_next_id() == old(self).spec_next_id(),
            old(self).ids_are_past() ==> final(self).ids_are_past(),
    {
        slots_remove(&mut self.slots, id)
    }

    /// Completes the request `id` with `text`: its slot leaves the table and
    /// receives the text. Without an entry under `id` nothing happens.
    pub fn resolve(&mut self, id: u64, text: &str) -> (found: bool)
        ensures
            found == old(self)@.contains_key(id),
            final(self)@ == old(self)@.remove(id),
            final(self).spec_next_id() == old(self).spec_next_id(),
            old(self).ids_are_past() ==> final(self).ids_are_past(),
    {
        match self.take(id) {
            Some(slot) => {
                let _ = slot_send(slot, text.to_owned());
                true
            },
            None => false,
        }
    }

    /// Completes every waiting request with the connection-closed reply and
    /// leaves the table empty. Returns how many requests were waiting.
    pub fn fail_all(&mut self) -> (failed: usize)
        ensures
            final(self)@ =~= Map::empty(),
            old(self)@.dom().finite(),
            failed == old(self)@.dom().len(),
            final(self).spec_next_id() == old(self).spec_next_id(),
            final(self).ids_are_past(),
    {
        let ids = slots_ids(&self.slots);
        let text = connection_closed_text();
        proof {
            ids@.unique_seq_to_set();
        }
        let mut i: usize = 0;
        while i < ids.len()
            invariant
                i <= ids.len(),
                ids@.no_duplicates(),
                self.next_id == old(self).next_id,
                forall|id: u64|
                    self@.contains_key(id) <==> exists|k: int|
                        i <= k < ids.len() && #[trigger] ids@[k] == id,
            decreases ids.len() - i,
        {
            let id = ids[i];
            let _ = self.resolve(id, text.as_str());
            proof {
                assert forall|other: u64| self@.contains_key(other) <==> exists|k: int|
                    i + 1 <= k < ids.len() && #[trigger] ids@[k] == other by {
                    if self@.contains_key(other) {
                        let k = choose|k: int| i <= k < ids.len() && #[trigger] ids@[k] == other;
                        assert(k != i);
                    }
                }
            }
            i += 1;
        }
        ids.len()
    }
}

} // verus!
