//! The node store: a generational arena.
//!
//! Nodes live in slots addressed by index; each slot carries a generation
//! counter that is bumped when the slot is vacated, so a [`NodePointer`]
//! (index plus generation) resolves only while its node is alive. Vacated
//! slots are parked on a pending list and become reusable only at the next
//! safe point ([`NodeStore::sync_pending`]), never in the middle of a
//! message drain or a traversal. An index is reused only after checking that
//! its slot is in fact vacant, so a recycled pointer can never overwrite a
//! live node.

use vstd::prelude::*;

use crate::node::{NodeInternal, NodePointer, SubNode};

verus! {

/// One slot of the arena.
#[derive(Debug)]
struct Slot {
    /// Bumped each time the slot is vacated.
    generation: u64,
    /// The resident node, if the slot is occupied.
    node: Option<NodeInternal>,
}

/// A generational arena of scene nodes.
#[derive(Debug)]
pub struct NodeStore {
    slots: Vec<Slot>,
    /// Slot indices that may be reused.
    free: Vec<usize>,
    /// Slot indices vacated since the last safe point; not yet reusable.
    pending: Vec<usize>,
}

impl NodeStore {
    /// Does `p` resolve to a live node?
    pub closed spec fn contains_spec(self, p: NodePointer) -> bool {
        &&& p.index < self.slots@.len()
        &&& self.slots@[p.index as int].generation == p.generation
        &&& self.slots@[p.index as int].node is Some
    }

    /// The node `p` resolves to.
    pub closed spec fn node_at(self, p: NodePointer) -> NodeInternal
        recommends
            self.contains_spec(p),
    {
        self.slots@[p.index as int].node->Some_0
    }

    /// The number of slots ever allocated (live plus vacant).
    pub closed spec fn slot_count_spec(self) -> nat {
        self.slots@.len()
    }

    /// Has `q` been left behind for good? A pointer is defunct once its
    /// slot has moved past its generation, or once its slot was vacated at
    /// the final generation and thereby sealed. A defunct pointer never
    /// resolves again, every operation preserves defunctness, and
    /// [`NodeStore::create`] never returns a defunct pointer — so a
    /// destroyed handle can never silently alias a reused slot.
    pub closed spec fn defunct_spec(self, q: NodePointer) -> bool {
        &&& q.index < self.slots@.len()
        &&& {
            ||| q.generation < self.slots@[q.index as int].generation
            ||| (q.generation == u64::MAX && self.slots@[q.index as int].generation == u64::MAX
                && self.slots@[q.index as int].node is None)
        }
    }

    /// An empty store.
    pub fn new() -> (s: NodeStore)
        ensures
            s.slot_count_spec() == 0,
            forall|q: NodePointer| !s.contains_spec(q),
    {
        NodeStore { slots: Vec::new(), free: Vec::new(), pending: Vec::new() }
    }

    /// The number of slots ever allocated.
    pub fn slot_count(&self) -> (n: usize)
        ensures
            n == self.slot_count_spec(),
    {
        self.slots.len()
    }

    /// Does `p` resolve to a live node?
    pub fn contains(&self, p: NodePointer) -> (b: bool)
        ensures
            b == self.contains_spec(p),
    {
        p.index < self.slots.len() && self.slots[p.index].generation == p.generation
            && self.slots[p.index].node.is_some()
    }

    /// Allocate a node with the given payload and default attributes.
    ///
    /// The returned pointer is fresh: it did not resolve before the call,
    /// and every other pointer resolves exactly as it did before.
    pub fn create(&mut self, sub: SubNode) -> (p: NodePointer)
        ensures
            !old(self).contains_spec(p),
            final(self).contains_spec(p),
            final(self).node_at(p) == NodeInternal::new_spec(sub),
            forall|q: NodePointer|
                q != p ==> #[trigger] final(self).contains_spec(q) == old(self).contains_spec(q),
            forall|q: NodePointer|
                q != p && old(self).contains_spec(q) ==> #[trigger] final(self).node_at(q)
                    == old(self).node_at(q),
            old(self).slot_count_spec() <= final(self).slot_count_spec()
                <= old(self).slot_count_spec() + 1,
            !final(self).defunct_spec(p),
            forall|q: NodePointer| #![trigger final(self).defunct_spec(q)]
                old(self).defunct_spec(q) ==> final(self).defunct_spec(q),
    {
        let node = NodeInternal::new(sub);
        let mut reuse: Option<usize> = None;
        loop
            invariant
                self.slots@ == old(self).slots@,
                self.pending@ == old(self).pending@,
                match reuse {
                    Some(i) => i < self.slots@.len() && self.slots@[i as int].node is None
                        && self.slots@[i as int].generation < u64::MAX,
                    None => true,
                },
            decreases self.free@.len(),
        {
            match self.free.pop() {
                Some(index) => {
                    // A stale or duplicate entry is dropped; only a slot
                    // that is really vacant, and not sealed at the final
                    // generation, may be reoccupied.
                    if index < self.slots.len() && self.slots[index].node.is_none()
                        && self.slots[index].generation < u64::MAX {
                        reuse = Some(index);
                        break;
                    }
                },
                None => {
                    break;
                },
            }
        }
        match reuse {
            Some(index) => {
                let generation = self.slots[index].generation;
                let slot = &mut self.slots[index];
                slot.node = Some(node);
                NodePointer { index, generation }
            },
            None => {
                let index = self.slots.len();
                self.slots.push(Slot { generation: 0, node: Some(node) });
                NodePointer { index, generation: 0 }
            },
        }
    }

    /// Read the node `p` resolves to.
    pub fn lookup(&self, p: NodePointer) -> (r: &NodeInternal)
        requires
            self.contains_spec(p),
        ensures
            *r == self.node_at(p),
    {
        self.slots[p.index].node.as_ref().unwrap()
    }

    /// Borrow the node `p` resolves to for mutation.
    ///
    /// Whatever the caller writes through the borrow becomes the node at
    /// `p`; every other pointer still resolves to its old node.
    pub fn lookup_mut(&mut self, p: NodePointer) -> (r: &mut NodeInternal)
        requires
            old(self).contains_spec(p),
        ensures
            *r == old(self).node_at(p),
            final(self).contains_spec(p),
            final(self).node_at(p) == *final(r),
            final(self).slot_count_spec() == old(self).slot_count_spec(),
            forall|q: NodePointer|
                q != p ==> #[trigger] final(self).contains_spec(q) == old(self).contains_spec(q),
            forall|q: NodePointer|
                q != p && old(self).contains_spec(q) ==> #[trigger] final(self).node_at(q)
                    == old(self).node_at(q),
            forall|q: NodePointer| #![trigger final(self).defunct_spec(q)]
                final(self).defunct_spec(q) == old(self).defunct_spec(q),
    {
        let slot = &mut self.slots[p.index];
        slot.node.as_mut().unwrap()
    }

    /// Vacate the slot of `p`, if it is live.
    ///
    /// The slot's generation is bumped, so `p` (and any copy of it) will
    /// never resolve again; the slot itself becomes reusable only at the
    /// next safe point. Returns whether `p` was live; if it was not, the
    /// store is left exactly as it was.
    pub fn destroy(&mut self, p: NodePointer) -> (found: bool)
        ensures
            found == old(self).contains_spec(p),
            !final(self).contains_spec(p),
            final(self).slot_count_spec() == old(self).slot_count_spec(),
            forall|q: NodePointer|
                q != p ==> #[trigger] final(self).contains_spec(q) == old(self).contains_spec(q),
            forall|q: NodePointer|
                q != p && old(self).contains_spec(q) ==> #[trigger] final(self).node_at(q)
                    == old(self).node_at(q),
            found ==> final(self).defunct_spec(p),
            forall|q: NodePointer| #![trigger final(self).defunct_spec(q)]
                old(self).defunct_spec(q) ==> final(self).defunct_spec(q),
            !found ==> *final(self) == *old(self),
    {
        if !self.contains(p) {
            return false;
        }
        let slot = &mut self.slots[p.index];
        slot.node = None;
        if slot.generation < u64::MAX {
            slot.generation = slot.generation + 1;
            self.pending.push(p.index);
        }
        true
    }

    /// The safe point: make every slot vacated since the last safe point
    /// available for reuse. No pointer changes how it resolves.
    pub fn sync_pending(&mut self)
        ensures
            final(self).slot_count_spec() == old(self).slot_count_spec(),
            forall|q: NodePointer|
                #[trigger] final(self).contains_spec(q) == old(self).contains_spec(q),
            forall|q: NodePointer|
                old(self).contains_spec(q) ==> #[trigger] final(self).node_at(q)
                    == old(self).node_at(q),
            forall|q: NodePointer| #![trigger final(self).defunct_spec(q)]
                final(self).defunct_spec(q) == old(self).defunct_spec(q),
    {
        self.free.append(&mut self.pending);
    }
}

/// A defunct pointer never resolves.
pub proof fn lemma_defunct_never_resolves(s: NodeStore, q: NodePointer)
    requires
        s.defunct_spec(q),
    ensures
        !s.contains_spec(q),
{
}

/// A live pointer addresses a slot below the slot count, so live nodes
/// witness the store's capacity.
pub proof fn lemma_live_index_bound(s: NodeStore, p: NodePointer)
    requires
        s.contains_spec(p),
    ensures
        p.index_spec() < s.slot_count_spec(),
{
}

/// Two distinct live pointers address distinct slots: a slot resolves at
/// most one pointer at a time.
pub proof fn lemma_distinct_live_indices(s: NodeStore, p: NodePointer, q: NodePointer)
    requires
        s.contains_spec(p),
        s.contains_spec(q),
        p != q,
    ensures
        p.index_spec() != q.index_spec(),
{
}

/// Two distinct live pointers force at least two slots.
pub proof fn lemma_live_pair_capacity(s: NodeStore, p: NodePointer, q: NodePointer)
    requires
        s.contains_spec(p),
        s.contains_spec(q),
        p != q,
    ensures
        s.slot_count_spec() >= 2,
{
    lemma_live_index_bound(s, p);
    lemma_live_index_bound(s, q);
    lemma_distinct_live_indices(s, p, q);
}

/// Three pairwise distinct live pointers force at least three slots.
pub proof fn lemma_live_triple_capacity(
    s: NodeStore,
    p: NodePointer,
    q: NodePointer,
    r: NodePointer,
)
    requires
        s.contains_spec(p),
        s.contains_spec(q),
        s.contains_spec(r),
        p != q,
        p != r,
        q != r,
    ensures
        s.slot_count_spec() >= 3,
{
    lemma_live_index_bound(s, p);
    lemma_live_index_bound(s, q);
    lemma_live_index_bound(s, r);
    lemma_distinct_live_indices(s, p, q);
    lemma_distinct_live_indices(s, p, r);
    lemma_distinct_live_indices(s, q, r);
}

} // verus!
