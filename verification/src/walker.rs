//! Depth-first traversal: world state propagation and the pruning walker.
//!
//! One engine serves both frame phases. [`Hub::update_graph`] recomputes
//! `world_transform` and `world_visible` for everything reachable from the
//! scene's root chain (descending even into invisible subtrees, so their
//! stale world state is refreshed too). [`Hub::walk`] runs the same engine
//! in pruning mode: an invisible node is still visited — and yielded —
//! once, but nothing beneath it is entered. The whole traversal is pinned,
//! visit by visit, by the spec function [`walk_chain`].
//!
//! The engine is fuel-bounded by the size of the store: a healthy graph is
//! always traversed in full (a chain can never be longer than the store),
//! and a graph corrupted into a cycle yields a truncated traversal instead
//! of running forever.

use vstd::prelude::*;
use vstd::pervasive::unreached;

use crate::diag::Diagnostic;
use crate::hub::Hub;
use crate::node::{NodeInternal, NodePointer, SubNode};
use crate::scene::Scene;
use crate::store::{
    lemma_distinct_live_indices, lemma_live_index_bound, lemma_live_pair_capacity,
    lemma_live_triple_capacity, NodeStore,
};
use crate::transform::{concat_spec, TransformInternal};

verus! {

/// One node as the traversal saw it: its pointer and the world state that
/// was computed for it.
#[derive(Clone, Copy, Debug, PartialEq, Eq, Structural)]
pub struct Visit {
    /// The visited node.
    pub node: NodePointer,
    /// The world transform computed for it.
    pub world_transform: TransformInternal,
    /// The world visibility computed for it.
    pub world_visible: bool,
}

/// The pre-order visit sequence of the sibling chain starting at `head`,
/// under a parent with world state (`parent_transform`, `parent_visible`).
///
/// Each node contributes its visit, then (unless pruned) its children's
/// visits, then its later siblings' visits. In pruning mode the children
/// of a locally invisible node are skipped; the node itself still appears.
/// A dead link ends its chain, and every step consumes fuel.
pub open spec fn walk_chain(
    s: NodeStore,
    head: Option<NodePointer>,
    parent_transform: TransformInternal,
    parent_visible: bool,
    prune: bool,
    fuel: nat,
) -> Seq<Visit>
    decreases fuel,
{
    match head {
        None => Seq::empty(),
        Some(p) => {
            if fuel == 0 {
                Seq::empty()
            } else if !s.contains_spec(p) {
                Seq::empty()
            } else {
                let n = s.node_at(p);
                let wt = concat_spec(parent_transform, n.transform);
                let wv = parent_visible && n.visible;
                let visit = Visit { node: p, world_transform: wt, world_visible: wv };
                let kids = if n.visible || !prune {
                    walk_chain(s, n.first_child_spec(), wt, wv, prune, (fuel - 1) as nat)
                } else {
                    Seq::empty()
                };
                let sibs = walk_chain(
                    s,
                    n.next_sibling,
                    parent_transform,
                    parent_visible,
                    prune,
                    (fuel - 1) as nat,
                );
                seq![visit] + kids + sibs
            }
        },
    }
}

/// The dead links a traversal of the chain at `head` runs into, in the
/// order it meets them: a link to a destroyed node ends its chain and is
/// recorded; fuel exhaustion records nothing.
pub open spec fn stale_links(
    s: NodeStore,
    head: Option<NodePointer>,
    prune: bool,
    fuel: nat,
) -> Seq<NodePointer>
    decreases fuel,
{
    match head {
        None => Seq::empty(),
        Some(p) => {
            if fuel == 0 {
                Seq::empty()
            } else if !s.contains_spec(p) {
                seq![p]
            } else {
                let n = s.node_at(p);
                let kids = if n.visible || !prune {
                    stale_links(s, n.first_child_spec(), prune, (fuel - 1) as nat)
                } else {
                    Seq::empty()
                };
                kids + stale_links(s, n.next_sibling, prune, (fuel - 1) as nat)
            }
        },
    }
}

/// The diagnostics a traversal records for the given dead links.
pub open spec fn stale_diags(links: Seq<NodePointer>) -> Seq<Diagnostic> {
    links.map_values(|l: NodePointer| Diagnostic::StaleLink { link: l })
}

/// Two node records that agree on everything a traversal reads: the local
/// fields. The derived world fields are free.
pub open spec fn locals_eq_node(n0: NodeInternal, n1: NodeInternal) -> bool {
    &&& n1.visible == n0.visible
    &&& n1.transform == n0.transform
    &&& n1.sub_node == n0.sub_node
    &&& n1.next_sibling == n0.next_sibling
}

/// The stores have the same live pointers and every live node keeps its
/// local fields; only derived world state may differ.
pub open spec fn locals_preserved(s0: NodeStore, s1: NodeStore) -> bool {
    &&& s1.slot_count_spec() == s0.slot_count_spec()
    &&& forall|q: NodePointer| #![trigger s1.contains_spec(q)]
        s1.contains_spec(q) == s0.contains_spec(q)
    &&& forall|q: NodePointer| #![trigger s1.node_at(q)] #![trigger s0.node_at(q)]
        s0.contains_spec(q) ==> locals_eq_node(s0.node_at(q), s1.node_at(q))
}

/// A pending chunk of traversal work: a chain head, the world state of its
/// parent, and the fuel left for it.
#[derive(Clone, Copy)]
struct Frame {
    head: NodePointer,
    parent_transform: TransformInternal,
    parent_visible: bool,
    fuel: usize,
}

/// The visits a frame still owes.
spec fn frame_walk(s: NodeStore, f: Frame, prune: bool) -> Seq<Visit> {
    walk_chain(s, Some(f.head), f.parent_transform, f.parent_visible, prune, f.fuel as nat)
}

/// The visits a whole stack of frames still owes, topmost first.
spec fn stack_walk(s: NodeStore, frames: Seq<Frame>, prune: bool) -> Seq<Visit>
    decreases frames.len(),
{
    if frames.len() == 0 {
        Seq::empty()
    } else {
        frame_walk(s, frames.last(), prune) + stack_walk(s, frames.drop_last(), prune)
    }
}

/// The dead links a frame still owes.
spec fn frame_stales(s: NodeStore, f: Frame, prune: bool) -> Seq<NodePointer> {
    stale_links(s, Some(f.head), prune, f.fuel as nat)
}

/// The dead links a whole stack of frames still owes, topmost first.
spec fn stack_stales(s: NodeStore, frames: Seq<Frame>, prune: bool) -> Seq<NodePointer>
    decreases frames.len(),
{
    if frames.len() == 0 {
        Seq::empty()
    } else {
        frame_stales(s, frames.last(), prune) + stack_stales(s, frames.drop_last(), prune)
    }
}

/// Powers of three, the termination measure base for the frame stack.
spec fn pow3(n: nat) -> nat
    decreases n,
{
    if n == 0 {
        1
    } else {
        3 * pow3((n - 1) as nat)
    }
}

proof fn lemma_pow3_pos(n: nat)
    ensures
        pow3(n) >= 1,
    decreases n,
{
    if n > 0 {
        lemma_pow3_pos((n - 1) as nat);
    }
}

/// The termination measure of the frame stack: popping a frame of fuel `f`
/// pushes at most two frames of fuel `f - 1`, and `2 * 3^(f-1) < 3^f`.
spec fn stack_measure(frames: Seq<Frame>) -> nat
    decreases frames.len(),
{
    if frames.len() == 0 {
        0
    } else {
        pow3(frames.last().fuel as nat) + stack_measure(frames.drop_last())
    }
}

/// Pushing a frame puts its walk in front of the stack's walk.
proof fn lemma_stack_push(s: NodeStore, frames: Seq<Frame>, f: Frame, prune: bool)
    ensures
        stack_walk(s, frames.push(f), prune) == frame_walk(s, f, prune) + stack_walk(
            s,
            frames,
            prune,
        ),
        stack_stales(s, frames.push(f), prune) == frame_stales(s, f, prune) + stack_stales(
            s,
            frames,
            prune,
        ),
        stack_measure(frames.push(f)) == pow3(f.fuel as nat) + stack_measure(frames),
{
    assert(frames.push(f).drop_last() =~= frames);
    assert(frames.push(f).last() == f);
}

/// Recording one more dead link keeps the diagnostic sequence aligned.
proof fn lemma_stale_diags_push(links: Seq<NodePointer>, link: NodePointer)
    ensures
        stale_diags(links.push(link)) == stale_diags(links).push(
            Diagnostic::StaleLink { link },
        ),
{
    assert(stale_diags(links.push(link)) =~= stale_diags(links).push(
        Diagnostic::StaleLink { link },
    ));
}

/// Moving one visit from the pending side to the done side keeps the
/// total sequence.
proof fn lemma_recombine(
    done: Seq<Visit>,
    visit: Visit,
    kids: Seq<Visit>,
    sibs: Seq<Visit>,
    rest: Seq<Visit>,
)
    ensures
        done.push(visit) + (kids + (sibs + rest)) == done + ((seq![visit] + kids + sibs) + rest),
{
    assert(done.push(visit) + (kids + (sibs + rest)) =~= done + ((seq![visit] + kids + sibs)
        + rest));
}

/// Every node a walk visits is live in the store it walked.
proof fn lemma_walk_members_live(
    s: NodeStore,
    head: Option<NodePointer>,
    pt: TransformInternal,
    pv: bool,
    prune: bool,
    fuel: nat,
)
    ensures
        forall|i: int|
            0 <= i < walk_chain(s, head, pt, pv, prune, fuel).len() ==> s.contains_spec(
                #[trigger] walk_chain(s, head, pt, pv, prune, fuel)[i].node,
            ),
    decreases fuel,
{
    let w = walk_chain(s, head, pt, pv, prune, fuel);
    match head {
        None => {
            assert(w =~= Seq::<Visit>::empty());
        },
        Some(p) => {
            if fuel == 0 || !s.contains_spec(p) {
                assert(w =~= Seq::<Visit>::empty());
            } else {
                let n = s.node_at(p);
                let wt = concat_spec(pt, n.transform);
                let wv = pv && n.visible;
                let kids = if n.visible || !prune {
                    walk_chain(s, n.first_child_spec(), wt, wv, prune, (fuel - 1) as nat)
                } else {
                    Seq::<Visit>::empty()
                };
                let sibs = walk_chain(s, n.next_sibling, pt, pv, prune, (fuel - 1) as nat);
                if n.visible || !prune {
                    lemma_walk_members_live(
                        s,
                        n.first_child_spec(),
                        wt,
                        wv,
                        prune,
                        (fuel - 1) as nat,
                    );
                }
                lemma_walk_members_live(s, n.next_sibling, pt, pv, prune, (fuel - 1) as nat);
                assert forall|i: int| 0 <= i < w.len() implies s.contains_spec(
                    #[trigger] w[i].node,
                ) by {
                    if i == 0 {
                        assert(w[i].node == p);
                    } else if i <= kids.len() {
                        assert(w[i] == kids[i - 1]);
                    } else {
                        assert(w[i] == sibs[i - 1 - kids.len()]);
                    }
                }
            }
        },
    }
}

/// After one node's world state is written, every fully settled visit
/// (one with no later duplicate) still shows the world state its visit
/// recorded.
proof fn lemma_write_preserves_visits(
    s_entry: NodeStore,
    s_new: NodeStore,
    full: Seq<Visit>,
    k: int,
    p: NodePointer,
)
    requires
        0 <= k < full.len(),
        full[k].node == p,
        forall|i: int| 0 <= i < full.len() ==> s_entry.contains_spec(#[trigger] full[i].node),
        s_new.contains_spec(p),
        s_new.node_at(p).world_transform == full[k].world_transform,
        s_new.node_at(p).world_visible == full[k].world_visible,
        forall|q: NodePointer| #![trigger s_new.contains_spec(q)]
            s_new.contains_spec(q) == s_entry.contains_spec(q),
        forall|q: NodePointer| #![trigger s_new.node_at(q)]
            q != p && s_entry.contains_spec(q) ==> s_new.node_at(q) == s_entry.node_at(q),
        forall|i: int|
            #![trigger full[i]]
            0 <= i < k && (forall|j: int| i < j < full.len() ==> full[j].node != full[i].node)
                ==> s_entry.node_at(full[i].node).world_transform == full[i].world_transform
                && s_entry.node_at(full[i].node).world_visible == full[i].world_visible,
    ensures
        forall|i: int|
            #![trigger full[i]]
            0 <= i < k + 1 && (forall|j: int| i < j < full.len() ==> full[j].node != full[i].node)
                ==> s_new.node_at(full[i].node).world_transform == full[i].world_transform
                && s_new.node_at(full[i].node).world_visible == full[i].world_visible,
{
    assert forall|i: int|
        0 <= i < k + 1 && (forall|j: int|
            i < j < full.len() ==> full[j].node != full[i].node) implies s_new.node_at(full[i].node).world_transform == full[i].world_transform
        && s_new.node_at(full[i].node).world_visible == full[i].world_visible by {
        if i < k {
            assert(full[k].node != full[i].node);
            assert(s_entry.contains_spec(full[i].node));
        }
    }
}

impl Hub {
    /// Traverse the chain starting at `head` depth-first, computing and
    /// storing `world_transform` and `world_visible` for every node
    /// visited, and return the visits in order.
    ///
    /// The chain heads are treated as roots: their world state derives
    /// from the identity transform and full visibility. With `prune` set,
    /// the children of a locally invisible node are not entered (the node
    /// itself is still visited); without it the whole reachable tree is
    /// refreshed. The visit sequence is exactly [`walk_chain`], with fuel
    /// equal to the store's slot count.
    #[verifier::rlimit(100)]
    #[verifier::spinoff_prover]
    pub fn traverse(&mut self, head: Option<NodePointer>, prune: bool) -> (visits: Vec<Visit>)
        ensures
            visits@ == walk_chain(
                old(self).store(),
                head,
                TransformInternal::one_spec(),
                true,
                prune,
                old(self).store().slot_count_spec(),
            ),
            locals_preserved(old(self).store(), final(self).store()),
            forall|i: int|
                #![trigger visits@[i]]
                0 <= i < visits@.len() && (forall|j: int|
                    i < j < visits@.len() ==> visits@[j].node != visits@[i].node) ==> {
                    &&& final(self).store().node_at(visits@[i].node).world_transform
                        == visits@[i].world_transform
                    &&& final(self).store().node_at(visits@[i].node).world_visible
                        == visits@[i].world_visible
                },
            forall|q: NodePointer|
                #![trigger final(self).store().node_at(q)]
                old(self).store().contains_spec(q) && (forall|i: int|
                    0 <= i < visits@.len() ==> visits@[i].node != q) ==> final(self).store().node_at(q) == old(self).store().node_at(q),
            final(self).diags_spec() == old(self).diags_spec() + stale_diags(
                stale_links(old(self).store(), head, prune, old(self).store().slot_count_spec()),
            ),
            forall|q: NodePointer| #![trigger final(self).store().defunct_spec(q)]
                final(self).store().defunct_spec(q) == old(self).store().defunct_spec(q),
    {
        let ghost s0 = self.nodes;
        let fuel0 = self.nodes.slot_count();
        let ghost full = walk_chain(
            s0,
            head,
            TransformInternal::one_spec(),
            true,
            prune,
            fuel0 as nat,
        );
        let ghost full_stales = stale_links(s0, head, prune, fuel0 as nat);
        let ghost mut done_links: Seq<NodePointer> = Seq::empty();
        let mut visits: Vec<Visit> = Vec::new();
        let mut stack: Vec<Frame> = Vec::new();
        let identity = TransformInternal::one();
        match head {
            Some(h) => {
                stack.push(
                    Frame {
                        head: h,
                        parent_transform: identity,
                        parent_visible: true,
                        fuel: fuel0,
                    },
                );
            },
            None => (),
        }
        proof {
            lemma_walk_members_live(
                s0,
                head,
                TransformInternal::one_spec(),
                true,
                prune,
                fuel0 as nat,
            );
            match head {
                Some(h) => {
                    assert(stack@.len() == 1);
                    assert(stack@.drop_last() =~= Seq::<Frame>::empty());
                    assert(stack_walk(s0, stack@.drop_last(), prune) =~= Seq::<Visit>::empty());
                    assert(frame_walk(s0, stack@.last(), prune) == full);
                    assert(stack_walk(s0, stack@, prune) =~= full);
                    assert(stack_stales(s0, stack@.drop_last(), prune) =~= Seq::<
                        NodePointer,
                    >::empty());
                    assert(frame_stales(s0, stack@.last(), prune) == full_stales);
                    assert(stack_stales(s0, stack@, prune) =~= full_stales);
                },
                None => {
                    assert(full =~= Seq::<Visit>::empty());
                    assert(stack_walk(s0, stack@, prune) =~= full);
                    assert(full_stales =~= Seq::<NodePointer>::empty());
                    assert(stack_stales(s0, stack@, prune) =~= full_stales);
                },
            }
            assert(visits@ + stack_walk(s0, stack@, prune) =~= full);
            assert(done_links + stack_stales(s0, stack@, prune) =~= full_stales);
            assert(stale_diags(done_links) =~= Seq::<Diagnostic>::empty());
        }
        while stack.len() != 0
            invariant
                s0 == old(self).store(),
                full == walk_chain(
                    s0,
                    head,
                    TransformInternal::one_spec(),
                    true,
                    prune,
                    s0.slot_count_spec(),
                ),
                locals_preserved(s0, self.store()),
                forall|i: int|
                    0 <= i < full.len() ==> s0.contains_spec(#[trigger] full[i].node),
                visits@ + stack_walk(s0, stack@, prune) == full,
                forall|i: int|
                    #![trigger full[i]]
                    0 <= i < visits@.len() && (forall|j: int|
                        i < j < full.len() ==> full[j].node != full[i].node) ==> {
                        &&& self.store().node_at(full[i].node).world_transform
                            == full[i].world_transform
                        &&& self.store().node_at(full[i].node).world_visible
                            == full[i].world_visible
                    },
                forall|q: NodePointer|
                    #![trigger self.store().node_at(q)]
                    s0.contains_spec(q) && (forall|i: int|
                        0 <= i < full.len() ==> full[i].node != q) ==> self.store().node_at(q)
                        == s0.node_at(q),
                full_stales == stale_links(s0, head, prune, s0.slot_count_spec()),
                done_links + stack_stales(s0, stack@, prune) == full_stales,
                self.diags_spec() == old(self).diags_spec() + stale_diags(done_links),
                forall|q: NodePointer| #![trigger self.store().defunct_spec(q)]
                    self.store().defunct_spec(q) == old(self).store().defunct_spec(q),
            decreases stack_measure(stack@),
        {
            let ghost s_entry = self.nodes;
            let ghost stack_before = stack@;
            let frame = match stack.pop() {
                Some(f) => f,
                None => unreached(),
            };
            proof {
                assert(stack_before.drop_last() =~= stack@);
                assert(stack_walk(s0, stack_before, prune) == frame_walk(s0, frame, prune)
                    + stack_walk(s0, stack@, prune));
                assert(stack_stales(s0, stack_before, prune) == frame_stales(s0, frame, prune)
                    + stack_stales(s0, stack@, prune));
                lemma_pow3_pos(frame.fuel as nat);
            }
            let p = frame.head;
            if frame.fuel == 0 {
                // Fuel can only run out on a graph whose links form a
                // cycle; the traversal is cut short instead of spinning.
                proof {
                    assert(frame_walk(s0, frame, prune) =~= Seq::<Visit>::empty());
                    assert(visits@ + stack_walk(s0, stack@, prune) =~= full);
                    assert(frame_stales(s0, frame, prune) =~= Seq::<NodePointer>::empty());
                    assert(done_links + stack_stales(s0, stack@, prune) =~= full_stales);
                }
                continue;
            }
            if !self.nodes.contains(p) {
                // A link to a node destroyed earlier: the chain is cut
                // here. Report it and go on with the rest of the tree.
                self.diags.push(Diagnostic::StaleLink { link: p });
                proof {
                    lemma_stale_diags_push(done_links, p);
                    done_links = done_links.push(p);
                    assert(frame_walk(s0, frame, prune) =~= Seq::<Visit>::empty());
                    assert(visits@ + stack_walk(s0, stack@, prune) =~= full);
                    assert(frame_stales(s0, frame, prune) =~= seq![p]);
                    assert(done_links + stack_stales(s0, stack@, prune) =~= full_stales);
                }
                continue;
            }
            let looked = self.nodes.lookup(p);
            let node_transform = looked.transform;
            let node_visible = looked.visible;
            let node_first_child = match &looked.sub_node {
                SubNode::Group { first_child } => *first_child,
                _ => None,
            };
            let node_next_sibling = looked.next_sibling;
            let wt = frame.parent_transform.concat(&node_transform);
            let wv = frame.parent_visible && node_visible;
            let visit = Visit { node: p, world_transform: wt, world_visible: wv };
            let ghost kids = if node_visible || !prune {
                walk_chain(s0, s0.node_at(p).first_child_spec(), wt, wv, prune, (frame.fuel
                    - 1) as nat)
            } else {
                Seq::<Visit>::empty()
            };
            let ghost sibs = walk_chain(
                s0,
                s0.node_at(p).next_sibling,
                frame.parent_transform,
                frame.parent_visible,
                prune,
                (frame.fuel - 1) as nat,
            );
            let ghost kids_stales = if node_visible || !prune {
                stale_links(s0, s0.node_at(p).first_child_spec(), prune, (frame.fuel - 1) as nat)
            } else {
                Seq::<NodePointer>::empty()
            };
            let ghost sibs_stales = stale_links(
                s0,
                s0.node_at(p).next_sibling,
                prune,
                (frame.fuel - 1) as nat,
            );
            proof {
                assert(s0.node_at(p).transform == node_transform);
                assert(s0.node_at(p).visible == node_visible);
                assert(s0.node_at(p).first_child_spec() == node_first_child);
                assert(s0.node_at(p).next_sibling == node_next_sibling);
                assert(frame_walk(s0, frame, prune) == seq![visit] + kids + sibs);
                assert(frame_stales(s0, frame, prune) == kids_stales + sibs_stales);
                assert(full[visits@.len() as int] == visit) by {
                    assert((frame_walk(s0, frame, prune) + stack_walk(s0, stack@, prune))[0]
                        == visit);
                }
            }
            let ghost k = visits@.len() as int;
            let ghost stack_after_pop = stack@;
            // The node's world state is exactly what this visit records.
            let m = self.nodes.lookup_mut(p);
            m.world_transform = wt;
            m.world_visible = wv;
            // Schedule the rest of this chain, then the children on top,
            // so the children are walked first: pre-order.
            match node_next_sibling {
                Some(sb) => {
                    let sib_frame = Frame {
                        head: sb,
                        parent_transform: frame.parent_transform,
                        parent_visible: frame.parent_visible,
                        fuel: frame.fuel - 1,
                    };
                    stack.push(sib_frame);
                    proof {
                        lemma_stack_push(s0, stack_after_pop, sib_frame, prune);
                        assert(frame_walk(s0, sib_frame, prune) == sibs);
                        assert(frame_stales(s0, sib_frame, prune) == sibs_stales);
                    }
                },
                None => {
                    proof {
                        assert(sibs =~= Seq::<Visit>::empty());
                        assert(stack_walk(s0, stack@, prune) =~= sibs + stack_walk(
                            s0,
                            stack_after_pop,
                            prune,
                        ));
                        assert(sibs_stales =~= Seq::<NodePointer>::empty());
                        assert(stack_stales(s0, stack@, prune) =~= sibs_stales + stack_stales(
                            s0,
                            stack_after_pop,
                            prune,
                        ));
                    }
                },
            }
            let ghost stack_after_sib = stack@;
            if node_visible || !prune {
                match node_first_child {
                    Some(ch) => {
                        let child_frame = Frame {
                            head: ch,
                            parent_transform: wt,
                            parent_visible: wv,
                            fuel: frame.fuel - 1,
                        };
                        stack.push(child_frame);
                        proof {
                            lemma_stack_push(s0, stack_after_sib, child_frame, prune);
                            assert(frame_walk(s0, child_frame, prune) == kids);
                            assert(frame_stales(s0, child_frame, prune) == kids_stales);
                        }
                    },
                    None => {
                        proof {
                            assert(kids =~= Seq::<Visit>::empty());
                            assert(stack_walk(s0, stack@, prune) =~= kids + stack_walk(
                                s0,
                                stack_after_sib,
                                prune,
                            ));
                            assert(kids_stales =~= Seq::<NodePointer>::empty());
                            assert(stack_stales(s0, stack@, prune) =~= kids_stales
                                + stack_stales(s0, stack_after_sib, prune));
                        }
                    },
                }
            } else {
                proof {
                    assert(kids =~= Seq::<Visit>::empty());
                    assert(stack_walk(s0, stack@, prune) =~= kids + stack_walk(
                        s0,
                        stack_after_sib,
                        prune,
                    ));
                    assert(kids_stales =~= Seq::<NodePointer>::empty());
                    assert(stack_stales(s0, stack@, prune) =~= kids_stales + stack_stales(
                        s0,
                        stack_after_sib,
                        prune,
                    ));
                }
            }
            let ghost done_before = visits@;
            visits.push(visit);
            proof {
                assert(full[k].node == p);
                assert(k + 1 <= full.len());
                assert(stack_walk(s0, stack@, prune) == kids + (sibs + stack_walk(
                    s0,
                    stack_after_pop,
                    prune,
                )));
                lemma_recombine(
                    done_before,
                    visit,
                    kids,
                    sibs,
                    stack_walk(s0, stack_after_pop, prune),
                );
                assert(visits@ + stack_walk(s0, stack@, prune) == full);
                // The measure went down: one frame of fuel `f` was
                // replaced by at most two of fuel `f - 1`.
                lemma_pow3_pos((frame.fuel - 1) as nat);
                assert(stack_measure(stack@) <= 2 * pow3((frame.fuel - 1) as nat)
                    + stack_measure(stack_after_pop));
                assert(pow3(frame.fuel as nat) == 3 * pow3((frame.fuel - 1) as nat));
                lemma_write_preserves_visits(s_entry, self.nodes, full, k, p);
                assert(visits@.len() == k + 1);
                assert(stack_stales(s0, stack@, prune) == kids_stales + (sibs_stales
                    + stack_stales(s0, stack_after_pop, prune)));
                assert(done_links + stack_stales(s0, stack@, prune) =~= full_stales);
            }
        }
        proof {
            assert(stack_walk(s0, stack@, prune) =~= Seq::<Visit>::empty());
            assert(visits@ =~= full);
            assert(stack_stales(s0, stack@, prune) =~= Seq::<NodePointer>::empty());
            assert(done_links =~= full_stales);
        }
        visits
    }

    /// Recompute `world_transform` and `world_visible` for every node
    /// reachable from the scene's root chain.
    ///
    /// Children of the roots derive their world state from their parent's
    /// freshly computed state, parents strictly before children; the
    /// roots derive theirs from the identity. Invisible subtrees are
    /// still descended into, so their stale world state is refreshed.
    pub fn update_graph(&mut self, scene: &Scene)
        ensures
            locals_preserved(old(self).store(), final(self).store()),
            ({
                let visits = walk_chain(
                    old(self).store(),
                    scene.first_child_spec(),
                    TransformInternal::one_spec(),
                    true,
                    false,
                    old(self).store().slot_count_spec(),
                );
                &&& forall|i: int|
                    #![trigger visits[i]]
                    0 <= i < visits.len() && (forall|j: int|
                        i < j < visits.len() ==> visits[j].node != visits[i].node) ==> {
                        &&& final(self).store().node_at(visits[i].node).world_transform
                            == visits[i].world_transform
                        &&& final(self).store().node_at(visits[i].node).world_visible
                            == visits[i].world_visible
                    }
                &&& forall|q: NodePointer|
                    #![trigger final(self).store().node_at(q)]
                    old(self).store().contains_spec(q) && (forall|i: int|
                        0 <= i < visits.len() ==> visits[i].node != q) ==> final(self).store().node_at(q) == old(self).store().node_at(q)
            }),
            final(self).diags_spec() == old(self).diags_spec() + stale_diags(
                stale_links(
                    old(self).store(),
                    scene.first_child_spec(),
                    false,
                    old(self).store().slot_count_spec(),
                ),
            ),
            forall|q: NodePointer| #![trigger final(self).store().defunct_spec(q)]
                final(self).store().defunct_spec(q) == old(self).store().defunct_spec(q),
    {
        let first = scene.first_child_value();
        let _ = self.traverse(first, false);
    }

    /// Start a pruning walk at `base`, which is treated as a root: its
    /// world state derives from the identity, so when `base` sits below
    /// transformed ancestors the walk reports state relative to `base`,
    /// not to the world origin.
    ///
    /// The walker yields, in pre-order, every node the pruned traversal
    /// visited — an invisible node is yielded once, with its computed
    /// world state, but nothing beneath it — together with the world
    /// state stored for it. The walker is single-use: once exhausted, a
    /// new one must be built to walk again; it holds a snapshot of the
    /// visits, so later hub mutations do not disturb it.
    pub fn walk(&mut self, base: NodePointer) -> (walker: TreeWalker)
        ensures
            walker.visits_spec() == walk_chain(
                old(self).store(),
                Some(base),
                TransformInternal::one_spec(),
                true,
                true,
                old(self).store().slot_count_spec(),
            ),
            walker.position_spec() == 0,
            locals_preserved(old(self).store(), final(self).store()),
            ({
                let visits = walker.visits_spec();
                &&& forall|i: int|
                    #![trigger visits[i]]
                    0 <= i < visits.len() && (forall|j: int|
                        i < j < visits.len() ==> visits[j].node != visits[i].node) ==> {
                        &&& final(self).store().node_at(visits[i].node).world_transform
                            == visits[i].world_transform
                        &&& final(self).store().node_at(visits[i].node).world_visible
                            == visits[i].world_visible
                    }
                &&& forall|q: NodePointer|
                    #![trigger final(self).store().node_at(q)]
                    old(self).store().contains_spec(q) && (forall|i: int|
                        0 <= i < visits.len() ==> visits[i].node != q) ==> final(self).store().node_at(q) == old(self).store().node_at(q)
            }),
            final(self).diags_spec() == old(self).diags_spec() + stale_diags(
                stale_links(
                    old(self).store(),
                    Some(base),
                    true,
                    old(self).store().slot_count_spec(),
                ),
            ),
            forall|q: NodePointer| #![trigger final(self).store().defunct_spec(q)]
                final(self).store().defunct_spec(q) == old(self).store().defunct_spec(q),
    {
        let visits = self.traverse(Some(base), true);
        TreeWalker { visits, position: 0 }
    }
}

/// A single-use cursor over the visits of one pruning walk.
pub struct TreeWalker {
    visits: Vec<Visit>,
    position: usize,
}

impl TreeWalker {
    /// All visits this walker yields, in order.
    pub closed spec fn visits_spec(self) -> Seq<Visit> {
        self.visits@
    }

    /// How many visits have been yielded already.
    pub closed spec fn position_spec(self) -> nat {
        self.position as nat
    }

    /// Yield the next visit, or nothing once the walk is exhausted.
    pub fn next(&mut self) -> (r: Option<Visit>)
        ensures
            final(self).visits_spec() == old(self).visits_spec(),
            old(self).position_spec() < old(self).visits_spec().len() ==> {
                &&& r == Some(old(self).visits_spec()[old(self).position_spec() as int])
                &&& final(self).position_spec() == old(self).position_spec() + 1
            },
            old(self).position_spec() >= old(self).visits_spec().len() ==> {
                &&& r is None
                &&& final(self).position_spec() == old(self).position_spec()
            },
    {
        if self.position < self.visits.len() {
            let v = self.visits[self.position];
            self.position = self.position + 1;
            Some(v)
        } else {
            None
        }
    }
}

/// The pointers of the world-visible visual nodes among `visits`, in
/// visit order.
pub open spec fn visible_visuals(s: NodeStore, visits: Seq<Visit>) -> Seq<NodePointer>
    decreases visits.len(),
{
    if visits.len() == 0 {
        Seq::empty()
    } else {
        let front = visible_visuals(s, visits.drop_last());
        let v = visits.last();
        if v.world_visible && s.contains_spec(v.node) && s.node_at(v.node).sub_node is Visual {
            front.push(v.node)
        } else {
            front
        }
    }
}

/// The pointers of the world-visible light nodes among `visits`, in visit
/// order.
pub open spec fn visible_lights(s: NodeStore, visits: Seq<Visit>) -> Seq<NodePointer>
    decreases visits.len(),
{
    if visits.len() == 0 {
        Seq::empty()
    } else {
        let front = visible_lights(s, visits.drop_last());
        let v = visits.last();
        if v.world_visible && s.contains_spec(v.node) && s.node_at(v.node).sub_node is Light {
            front.push(v.node)
        } else {
            front
        }
    }
}

impl Hub {
    /// The renderer's frame entry point: refresh world state below the
    /// scene with pruning, and collect the world-visible visual and light
    /// nodes, in traversal order, onto the two vectors.
    #[verifier::rlimit(50)]
    pub fn prepare_graph(
        &mut self,
        scene: &Scene,
        visuals: &mut Vec<NodePointer>,
        lights: &mut Vec<NodePointer>,
    )
        ensures
            locals_preserved(old(self).store(), final(self).store()),
            final(self).diags_spec() == old(self).diags_spec() + stale_diags(
                stale_links(
                    old(self).store(),
                    scene.first_child_spec(),
                    true,
                    old(self).store().slot_count_spec(),
                ),
            ),
            forall|q: NodePointer| #![trigger final(self).store().defunct_spec(q)]
                final(self).store().defunct_spec(q) == old(self).store().defunct_spec(q),
            ({
                let visits = walk_chain(
                    old(self).store(),
                    scene.first_child_spec(),
                    TransformInternal::one_spec(),
                    true,
                    true,
                    old(self).store().slot_count_spec(),
                );
                &&& final(visuals)@ == old(visuals)@ + visible_visuals(
                    old(self).store(),
                    visits,
                )
                &&& final(lights)@ == old(lights)@ + visible_lights(old(self).store(), visits)
            }),
    {
        let ghost s0 = self.nodes;
        let first = scene.first_child_value();
        let visits = self.traverse(first, true);
        let ghost full = visits@;
        proof {
            lemma_walk_members_live(
                s0,
                first,
                TransformInternal::one_spec(),
                true,
                true,
                s0.slot_count_spec(),
            );
            assert(full.take(0) =~= Seq::<Visit>::empty());
            assert(visuals@ + visible_visuals(s0, full.take(0)) =~= visuals@);
            assert(lights@ + visible_lights(s0, full.take(0)) =~= lights@);
        }
        let mut i: usize = 0;
        while i < visits.len()
            invariant
                s0 == old(self).store(),
                full == visits@,
                i <= visits@.len(),
                locals_preserved(s0, self.store()),
                forall|j: int| 0 <= j < full.len() ==> s0.contains_spec(#[trigger] full[j].node),
                visuals@ == old(visuals)@ + visible_visuals(s0, full.take(i as int)),
                lights@ == old(lights)@ + visible_lights(s0, full.take(i as int)),
            decreases visits@.len() - i,
        {
            let v = visits[i];
            proof {
                assert(full.take(i + 1).drop_last() =~= full.take(i as int));
                assert(full.take(i + 1).last() == full[i as int]);
                assert(s0.contains_spec(v.node));
                assert(locals_eq_node(s0.node_at(v.node), self.store().node_at(v.node)));
            }
            if v.world_visible {
                match &self.nodes.lookup(v.node).sub_node {
                    SubNode::Visual(_) => {
                        visuals.push(v.node);
                    },
                    SubNode::Light(_) => {
                        lights.push(v.node);
                    },
                    _ => (),
                }
            }
            i = i + 1;
        }
        proof {
            assert(full.take(visits@.len() as int) =~= full);
        }
    }
}

/// The world state the full (non-pruning) refresh computes for a node and
/// its first child: the child composes the parent's fresh world state with
/// its own local transform, and is world-visible exactly when the parent
/// is world-visible and the child is locally visible.
#[verifier::rlimit(50)]
pub proof fn lemma_child_world_composition(
    s: NodeStore,
    p: NodePointer,
    c: NodePointer,
    pt: TransformInternal,
    pv: bool,
    fuel: nat,
)
    requires
        s.contains_spec(p),
        s.node_at(p).first_child_spec() == Some(c),
        s.contains_spec(c),
        fuel >= 2,
    ensures
        ({
            let w = walk_chain(s, Some(p), pt, pv, false, fuel);
            &&& w.len() >= 2
            &&& w[0].node == p
            &&& w[0].world_transform == concat_spec(pt, s.node_at(p).transform)
            &&& w[0].world_visible == (pv && s.node_at(p).visible)
            &&& w[1].node == c
            &&& w[1].world_transform == concat_spec(
                w[0].world_transform,
                s.node_at(c).transform,
            )
            &&& w[1].world_visible == (w[0].world_visible && s.node_at(c).visible)
            &&& (s.node_at(p).next_sibling is None && s.node_at(c).first_child_spec() is None
                && s.node_at(c).next_sibling is None) ==> w.len() == 2
        }),
{
    let n = s.node_at(p);
    let wt = concat_spec(pt, n.transform);
    let wv = pv && n.visible;
    let kids = walk_chain(s, Some(c), wt, wv, false, (fuel - 1) as nat);
    assert(kids[0] == Visit {
        node: c,
        world_transform: concat_spec(wt, s.node_at(c).transform),
        world_visible: wv && s.node_at(c).visible,
    });
    let w = walk_chain(s, Some(p), pt, pv, false, fuel);
    assert(w[1] == kids[0]);
    if s.node_at(p).next_sibling is None && s.node_at(c).first_child_spec() is None
        && s.node_at(c).next_sibling is None {
        let nc = s.node_at(c);
        let wtc = concat_spec(wt, nc.transform);
        let wvc = wv && nc.visible;
        let kc = walk_chain(s, nc.first_child_spec(), wtc, wvc, false, (fuel - 2) as nat);
        let sc = walk_chain(s, nc.next_sibling, wt, wv, false, (fuel - 2) as nat);
        assert(kc =~= Seq::<Visit>::empty());
        assert(sc =~= Seq::<Visit>::empty());
        assert(kids =~= seq![kids[0]]);
        let sp = walk_chain(s, n.next_sibling, pt, pv, false, (fuel - 1) as nat);
        assert(sp =~= Seq::<Visit>::empty());
        assert(w.len() == 2);
    }
}

/// Invisibility propagates: under any parent, an invisible child is not
/// world-visible, and neither is the child's own child, whatever its own
/// flag says. The full refresh still visits both, so their stored world
/// state says so too.
#[verifier::rlimit(50)]
pub proof fn lemma_invisibility_propagates(
    s: NodeStore,
    p: NodePointer,
    c: NodePointer,
    g: NodePointer,
    pt: TransformInternal,
    pv: bool,
    fuel: nat,
)
    requires
        s.contains_spec(p),
        s.node_at(p).first_child_spec() == Some(c),
        s.contains_spec(c),
        !s.node_at(c).visible,
        s.node_at(c).first_child_spec() == Some(g),
        s.contains_spec(g),
        fuel >= 3,
    ensures
        ({
            let w = walk_chain(s, Some(p), pt, pv, false, fuel);
            &&& w.len() >= 3
            &&& w[1].node == c
            &&& !w[1].world_visible
            &&& w[2].node == g
            &&& !w[2].world_visible
            &&& (s.node_at(p).next_sibling is None && s.node_at(c).next_sibling is None
                && s.node_at(g).first_child_spec() is None && s.node_at(
                g,
            ).next_sibling is None) ==> w.len() == 3
        }),
{
    let n = s.node_at(p);
    let wt = concat_spec(pt, n.transform);
    let wv = pv && n.visible;
    let kids = walk_chain(s, Some(c), wt, wv, false, (fuel - 1) as nat);
    let nc = s.node_at(c);
    let wtc = concat_spec(wt, nc.transform);
    let kids_c = walk_chain(s, Some(g), wtc, false, false, (fuel - 2) as nat);
    assert(kids_c[0].node == g && !kids_c[0].world_visible);
    assert(kids[0].node == c && !kids[0].world_visible);
    assert(kids[1] == kids_c[0]);
    let w = walk_chain(s, Some(p), pt, pv, false, fuel);
    assert(w[1] == kids[0]);
    assert(w[2] == kids[1]);
    if s.node_at(p).next_sibling is None && s.node_at(c).next_sibling is None
        && s.node_at(g).first_child_spec() is None && s.node_at(g).next_sibling is None {
        let ng = s.node_at(g);
        let wtg = concat_spec(wtc, ng.transform);
        let kg = walk_chain(s, ng.first_child_spec(), wtg, false, false, (fuel - 3) as nat);
        let sg = walk_chain(s, ng.next_sibling, wtc, false, false, (fuel - 3) as nat);
        assert(kg =~= Seq::<Visit>::empty());
        assert(sg =~= Seq::<Visit>::empty());
        assert(kids_c =~= seq![kids_c[0]]);
        let sc = walk_chain(s, nc.next_sibling, wt, wv, false, (fuel - 2) as nat);
        assert(sc =~= Seq::<Visit>::empty());
        assert(kids =~= seq![kids[0], kids[1]]);
        let sp = walk_chain(s, n.next_sibling, pt, pv, false, (fuel - 1) as nat);
        assert(sp =~= Seq::<Visit>::empty());
        assert(w.len() == 3);
    }
}

/// Pruning at an invisible node: the pruned walk still yields the
/// invisible node itself, exactly once, with its computed world state, and
/// then continues directly with its later siblings — nothing beneath it is
/// walked.
pub proof fn lemma_prune_invisible(
    s: NodeStore,
    p: NodePointer,
    pt: TransformInternal,
    pv: bool,
    fuel: nat,
)
    requires
        s.contains_spec(p),
        !s.node_at(p).visible,
        fuel >= 1,
    ensures
        walk_chain(s, Some(p), pt, pv, true, fuel) == seq![
            Visit {
                node: p,
                world_transform: concat_spec(pt, s.node_at(p).transform),
                world_visible: false,
            },
        ] + walk_chain(s, s.node_at(p).next_sibling, pt, pv, true, (fuel - 1) as nat),
        ({
            let sibs = walk_chain(s, s.node_at(p).next_sibling, pt, pv, true, (fuel - 1) as nat);
            (forall|i: int| 0 <= i < sibs.len() ==> sibs[i].node != p) ==> {
                let w = walk_chain(s, Some(p), pt, pv, true, fuel);
                &&& w[0].node == p
                &&& forall|i: int| 0 < i < w.len() ==> w[i].node != p
            }
        }),
{
    let kids = Seq::<Visit>::empty();
    let sibs = walk_chain(s, s.node_at(p).next_sibling, pt, pv, true, (fuel - 1) as nat);
    let visit = Visit {
        node: p,
        world_transform: concat_spec(pt, s.node_at(p).transform),
        world_visible: false,
    };
    assert(walk_chain(s, Some(p), pt, pv, true, fuel) =~= seq![visit] + sibs);
}

/// Head insertion shows in traversal order: a chain head is visited
/// before its next sibling, so of two children added to the same group
/// the more recently added one comes first.
pub proof fn lemma_sibling_order(
    s: NodeStore,
    c2: NodePointer,
    c1: NodePointer,
    pt: TransformInternal,
    pv: bool,
    prune: bool,
    fuel: nat,
)
    requires
        s.contains_spec(c2),
        s.node_at(c2).next_sibling == Some(c1),
        s.contains_spec(c1),
        fuel >= 2,
    ensures
        ({
            let w = walk_chain(s, Some(c2), pt, pv, prune, fuel);
            &&& w.len() >= 2
            &&& w[0].node == c2
            &&& exists|j: int| 1 <= j < w.len() && #[trigger] w[j].node == c1
        }),
{
    let n = s.node_at(c2);
    let wt = concat_spec(pt, n.transform);
    let wv = pv && n.visible;
    let kids = if n.visible || !prune {
        walk_chain(s, n.first_child_spec(), wt, wv, prune, (fuel - 1) as nat)
    } else {
        Seq::<Visit>::empty()
    };
    let sibs = walk_chain(s, Some(c1), pt, pv, prune, (fuel - 1) as nat);
    assert(sibs[0].node == c1);
    let w = walk_chain(s, Some(c2), pt, pv, prune, fuel);
    let j: int = 1 + kids.len() as int;
    assert(w[j] == sibs[0]);
    assert(w[j].node == c1);
}

/// [`lemma_child_world_composition`] at the fuel [`Hub::update_graph`]
/// actually uses: two distinct live nodes witness enough capacity, so no
/// separate fuel bound is needed.
pub proof fn lemma_refresh_parent_child(
    s: NodeStore,
    p: NodePointer,
    c: NodePointer,
    pt: TransformInternal,
    pv: bool,
)
    requires
        s.contains_spec(p),
        s.node_at(p).first_child_spec() == Some(c),
        s.contains_spec(c),
        p != c,
    ensures
        ({
            let w = walk_chain(s, Some(p), pt, pv, false, s.slot_count_spec());
            &&& w.len() >= 2
            &&& w[0].node == p
            &&& w[0].world_transform == concat_spec(pt, s.node_at(p).transform)
            &&& w[0].world_visible == (pv && s.node_at(p).visible)
            &&& w[1].node == c
            &&& w[1].world_transform == concat_spec(
                w[0].world_transform,
                s.node_at(c).transform,
            )
            &&& w[1].world_visible == (w[0].world_visible && s.node_at(c).visible)
            &&& (s.node_at(p).next_sibling is None && s.node_at(c).first_child_spec() is None
                && s.node_at(c).next_sibling is None) ==> w.len() == 2
        }),
{
    lemma_live_pair_capacity(s, p, c);
    lemma_child_world_composition(s, p, c, pt, pv, s.slot_count_spec());
}

/// [`lemma_invisibility_propagates`] at the fuel [`Hub::update_graph`]
/// actually uses: three distinct live nodes witness enough capacity.
pub proof fn lemma_refresh_invisibility(
    s: NodeStore,
    p: NodePointer,
    c: NodePointer,
    g: NodePointer,
    pt: TransformInternal,
    pv: bool,
)
    requires
        s.contains_spec(p),
        s.node_at(p).first_child_spec() == Some(c),
        s.contains_spec(c),
        !s.node_at(c).visible,
        s.node_at(c).first_child_spec() == Some(g),
        s.contains_spec(g),
        p != c,
        p != g,
        c != g,
    ensures
        ({
            let w = walk_chain(s, Some(p), pt, pv, false, s.slot_count_spec());
            &&& w.len() >= 3
            &&& w[1].node == c
            &&& !w[1].world_visible
            &&& w[2].node == g
            &&& !w[2].world_visible
            &&& (s.node_at(p).next_sibling is None && s.node_at(c).next_sibling is None
                && s.node_at(g).first_child_spec() is None && s.node_at(
                g,
            ).next_sibling is None) ==> w.len() == 3
        }),
{
    lemma_live_triple_capacity(s, p, c, g);
    lemma_invisibility_propagates(s, p, c, g, pt, pv, s.slot_count_spec());
}

/// [`lemma_prune_invisible`] at the fuel [`Hub::walk`] actually uses: one
/// live node witnesses enough capacity.
pub proof fn lemma_walk_prune_invisible(
    s: NodeStore,
    p: NodePointer,
    pt: TransformInternal,
    pv: bool,
)
    requires
        s.contains_spec(p),
        !s.node_at(p).visible,
    ensures
        walk_chain(s, Some(p), pt, pv, true, s.slot_count_spec()) == seq![
            Visit {
                node: p,
                world_transform: concat_spec(pt, s.node_at(p).transform),
                world_visible: false,
            },
        ] + walk_chain(
            s,
            s.node_at(p).next_sibling,
            pt,
            pv,
            true,
            (s.slot_count_spec() - 1) as nat,
        ),
{
    lemma_live_index_bound(s, p);
    lemma_prune_invisible(s, p, pt, pv, s.slot_count_spec());
}

/// [`lemma_sibling_order`] at the fuel the traversal entry points use:
/// two distinct live siblings witness enough capacity.
pub proof fn lemma_walk_sibling_order(
    s: NodeStore,
    c2: NodePointer,
    c1: NodePointer,
    pt: TransformInternal,
    pv: bool,
    prune: bool,
)
    requires
        s.contains_spec(c2),
        s.node_at(c2).next_sibling == Some(c1),
        s.contains_spec(c1),
        c2 != c1,
    ensures
        ({
            let w = walk_chain(s, Some(c2), pt, pv, prune, s.slot_count_spec());
            &&& w.len() >= 2
            &&& w[0].node == c2
            &&& exists|j: int| 1 <= j < w.len() && #[trigger] w[j].node == c1
        }),
{
    lemma_live_pair_capacity(s, c2, c1);
    lemma_sibling_order(s, c2, c1, pt, pv, prune, s.slot_count_spec());
}


} // verus!
