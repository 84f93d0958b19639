//! Searching a sibling chain for the predecessor of a node.
//!
//! Both `RemoveChild` messages and `Scene::remove` must splice a node out
//! of a singly-linked sibling chain; the search for its predecessor is
//! shared here. The search is fuel-bounded by the size of the store, so it
//! terminates even on a corrupted (cyclic) chain, and its result is pinned
//! exactly by [`locate_spec`].

use vstd::prelude::*;

use crate::node::NodePointer;
use crate::store::NodeStore;

verus! {

/// Where a target node sits in a sibling chain.
#[derive(Clone, Copy, Debug, PartialEq, Eq, Structural)]
pub enum ChainFind {
    /// The target is the head of the chain.
    AtHead,
    /// The target follows the given live node.
    Before(NodePointer),
    /// The chain does not reach the target: it ends (or is cut by a dead
    /// link, or exceeds the store's size) without meeting it.
    Missing,
}

/// The result of walking the chain that starts at `head` looking for the
/// node whose `next_sibling` is `target`, giving up when `fuel` steps have
/// been taken.
pub open spec fn locate_spec(
    s: NodeStore,
    head: Option<NodePointer>,
    target: NodePointer,
    fuel: nat,
) -> ChainFind
    decreases fuel,
{
    match head {
        None => ChainFind::Missing,
        Some(p) => {
            if p == target {
                ChainFind::AtHead
            } else if fuel == 0 {
                ChainFind::Missing
            } else if !s.contains_spec(p) {
                ChainFind::Missing
            } else {
                let nxt = s.node_at(p).next_sibling;
                if nxt == Some(target) {
                    ChainFind::Before(p)
                } else {
                    locate_spec(s, nxt, target, (fuel - 1) as nat)
                }
            }
        },
    }
}

/// A search can only name a predecessor that is live and really links to
/// the target.
pub proof fn lemma_locate_before(
    s: NodeStore,
    head: Option<NodePointer>,
    target: NodePointer,
    fuel: nat,
    pred: NodePointer,
)
    requires
        locate_spec(s, head, target, fuel) == ChainFind::Before(pred),
    ensures
        s.contains_spec(pred),
        s.node_at(pred).next_sibling == Some(target),
    decreases fuel,
{
    match head {
        None => {},
        Some(p) => {
            if p == target || fuel == 0 || !s.contains_spec(p) {
            } else {
                let nxt = s.node_at(p).next_sibling;
                if nxt == Some(target) {
                } else {
                    lemma_locate_before(s, nxt, target, (fuel - 1) as nat, pred);
                }
            }
        },
    }
}

/// Walk the chain starting at `head` and report where `target` sits in it.
///
/// The walk follows at most as many links as the store has slots, so it
/// terminates even if the chain has been corrupted into a cycle; such a
/// chain reports the target missing, exactly as [`locate_spec`] says.
pub fn find_in_chain(
    store: &NodeStore,
    head: Option<NodePointer>,
    target: NodePointer,
) -> (r: ChainFind)
    ensures
        r == locate_spec(*store, head, target, store.slot_count_spec()),
{
    let fuel0 = store.slot_count();
    match head {
        None => ChainFind::Missing,
        Some(h) => {
            if h == target {
                return ChainFind::AtHead;
            }
            let mut cur: NodePointer = h;
            let mut fuel: usize = fuel0;
            loop
                invariant
                    fuel0 == store.slot_count_spec(),
                    cur != target,
                    locate_spec(*store, Some(cur), target, fuel as nat) == locate_spec(
                        *store,
                        head,
                        target,
                        fuel0 as nat,
                    ),
                decreases fuel,
            {
                if fuel == 0 {
                    return ChainFind::Missing;
                }
                if !store.contains(cur) {
                    return ChainFind::Missing;
                }
                let next = store.lookup(cur).next_sibling;
                match next {
                    Some(nx) => {
                        if nx == target {
                            return ChainFind::Before(cur);
                        }
                        cur = nx;
                        fuel = fuel - 1;
                    },
                    None => {
                        proof {
                            assert(locate_spec(*store, None, target, (fuel - 1) as nat)
                                == ChainFind::Missing);
                        }
                        return ChainFind::Missing;
                    },
                }
            }
        },
    }
}

} // verus!
