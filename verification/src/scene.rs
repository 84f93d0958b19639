//! The scene: the root of a tree of objects, and the synchronization
//! guard for reading node state.
//!
//! Unlike every other structural mutation, adding to or removing from the
//! scene's own root chain acts on the store immediately — the scene is
//! manipulated by the same thread that owns the hub, so there is no
//! channel in between.

use vstd::prelude::*;

use crate::chain::{find_in_chain, lemma_locate_before, locate_spec, ChainFind};
use crate::color::{Color, BLACK};
use crate::diag::Diagnostic;
use crate::hub::{same_except, with_next_sibling, Hub};
use crate::node::{Node, NodePointer};
use crate::object::Object;
use crate::texture::{Cube, Texture};
use crate::transform::TransformInternal;
use crate::walker::{locals_preserved, stale_diags, stale_links, walk_chain};

verus! {

/// What fills the frame behind all rendered objects.
#[derive(Clone, Debug, PartialEq, Eq)]
pub enum Background {
    /// A solid color.
    Color(Color),
    /// A texture stretched over the whole screen.
    Texture(Texture),
    /// A skybox.
    Skybox(Cube),
}

/// The root of a tree of game objects.
///
/// The scene is not itself a node: it holds the head of the root sibling
/// chain directly.
pub struct Scene {
    pub(crate) first_child: Option<NodePointer>,
    /// What fills the frame behind all rendered objects.
    pub background: Background,
}

impl Scene {
    /// The head of the scene's root sibling chain.
    pub open(crate) spec fn first_child_spec(self) -> Option<NodePointer> {
        self.first_child
    }

    /// The scene's background, as a spec-level value.
    pub open(crate) spec fn background_spec(self) -> Background {
        self.background
    }

    /// The head of the scene's root sibling chain.
    pub fn first_child_value(&self) -> (r: Option<NodePointer>)
        ensures
            r == self.first_child_spec(),
    {
        self.first_child
    }

    /// An empty scene over a black background.
    pub fn new() -> (s: Scene)
        ensures
            s.first_child_spec() is None,
            s.background_spec() == Background::Color(BLACK),
    {
        Scene { first_child: None, background: Background::Color(BLACK) }
    }

    /// Put `child` at the head of the scene's root chain, immediately.
    ///
    /// If the child still carries a sibling link from an earlier parent,
    /// the link is overwritten and a warning-severity diagnostic records
    /// it. A child whose node is already gone leaves everything unchanged
    /// except for an error-severity diagnostic.
    pub fn add<T: Object>(&mut self, hub: &mut Hub, child: &T)
        ensures
            final(self).background_spec() == old(self).background_spec(),
            forall|q: NodePointer| #![trigger final(hub).store().defunct_spec(q)]
                final(hub).store().defunct_spec(q) == old(hub).store().defunct_spec(q),
            ({
                let cp = child.base_spec().node_spec();
                if old(hub).store().contains_spec(cp) {
                    &&& same_except(old(hub).store(), final(hub).store(), cp)
                    &&& final(hub).store().node_at(cp) == with_next_sibling(
                        old(hub).store().node_at(cp),
                        old(self).first_child_spec(),
                    )
                    &&& final(self).first_child_spec() == Some(cp)
                    &&& final(hub).diags_spec() == if old(hub).store().node_at(
                        cp,
                    ).next_sibling is Some {
                        old(hub).diags_spec().push(Diagnostic::DanglingSibling { child: cp })
                    } else {
                        old(hub).diags_spec()
                    }
                } else {
                    &&& final(hub).store() == old(hub).store()
                    &&& final(self).first_child_spec() == old(self).first_child_spec()
                    &&& final(hub).diags_spec() == old(hub).diags_spec().push(
                        Diagnostic::StaleChild { child: cp },
                    )
                }
            }),
    {
        let cp = child.base().node_pointer();
        if !hub.nodes.contains(cp) {
            hub.diags.push(Diagnostic::StaleChild { child: cp });
            return;
        }
        let warn = hub.nodes.lookup(cp).next_sibling.is_some();
        let n = hub.nodes.lookup_mut(cp);
        n.next_sibling = self.first_child;
        self.first_child = Some(cp);
        if warn {
            hub.diags.push(Diagnostic::DanglingSibling { child: cp });
        }
    }

    /// Splice `child` out of the scene's root chain, immediately.
    ///
    /// If the child is not in the chain, the graph is left unchanged and
    /// an error-severity diagnostic records it; likewise for a child
    /// whose node is already gone.
    pub fn remove<T: Object>(&mut self, hub: &mut Hub, child: &T)
        ensures
            final(self).background_spec() == old(self).background_spec(),
            forall|q: NodePointer| #![trigger final(hub).store().defunct_spec(q)]
                final(hub).store().defunct_spec(q) == old(hub).store().defunct_spec(q),
            ({
                let cp = child.base_spec().node_spec();
                if old(hub).store().contains_spec(cp) {
                    let nxt = old(hub).store().node_at(cp).next_sibling;
                    match locate_spec(
                        old(hub).store(),
                        old(self).first_child_spec(),
                        cp,
                        old(hub).store().slot_count_spec(),
                    ) {
                        ChainFind::AtHead => {
                            &&& final(hub).store() == old(hub).store()
                            &&& final(self).first_child_spec() == nxt
                            &&& final(hub).diags_spec() == old(hub).diags_spec()
                        },
                        ChainFind::Before(pred) => {
                            &&& same_except(old(hub).store(), final(hub).store(), pred)
                            &&& final(hub).store().node_at(pred) == with_next_sibling(
                                old(hub).store().node_at(pred),
                                nxt,
                            )
                            &&& final(self).first_child_spec() == old(self).first_child_spec()
                            &&& final(hub).diags_spec() == old(hub).diags_spec()
                        },
                        ChainFind::Missing => {
                            &&& final(hub).store() == old(hub).store()
                            &&& final(self).first_child_spec() == old(self).first_child_spec()
                            &&& final(hub).diags_spec() == old(hub).diags_spec().push(
                                Diagnostic::ChildNotFound { parent: None, child: cp },
                            )
                        },
                    }
                } else {
                    &&& final(hub).store() == old(hub).store()
                    &&& final(self).first_child_spec() == old(self).first_child_spec()
                    &&& final(hub).diags_spec() == old(hub).diags_spec().push(
                        Diagnostic::StaleChild { child: cp },
                    )
                }
            }),
    {
        let cp = child.base().node_pointer();
        if !hub.nodes.contains(cp) {
            hub.diags.push(Diagnostic::StaleChild { child: cp });
            return;
        }
        let nxt = hub.nodes.lookup(cp).next_sibling;
        match find_in_chain(&hub.nodes, self.first_child, cp) {
            ChainFind::AtHead => {
                self.first_child = nxt;
            },
            ChainFind::Before(pred) => {
                proof {
                    lemma_locate_before(
                        hub.nodes,
                        self.first_child,
                        cp,
                        hub.nodes.slot_count_spec(),
                        pred,
                    );
                }
                let pn = hub.nodes.lookup_mut(pred);
                pn.next_sibling = nxt;
            },
            ChainFind::Missing => {
                hub.diags.push(Diagnostic::ChildNotFound { parent: None, child: cp });
            },
        }
    }

    /// Bring the world state of everything reachable from this scene up
    /// to date — exactly as [`Hub::update_graph`] does — and hand out a
    /// guard for reading it.
    pub fn sync_guard(&mut self, hub: &mut Hub) -> (guard: SyncGuard)
        ensures
            *final(self) == *old(self),
            locals_preserved(old(hub).store(), final(hub).store()),
            ({
                let visits = walk_chain(
                    old(hub).store(),
                    old(self).first_child_spec(),
                    TransformInternal::one_spec(),
                    true,
                    false,
                    old(hub).store().slot_count_spec(),
                );
                &&& forall|i: int|
                    #![trigger visits[i]]
                    0 <= i < visits.len() && (forall|j: int|
                        i < j < visits.len() ==> visits[j].node != visits[i].node) ==> {
                        &&& final(hub).store().node_at(visits[i].node).world_transform
                            == visits[i].world_transform
                        &&& final(hub).store().node_at(visits[i].node).world_visible
                            == visits[i].world_visible
                    }
                &&& forall|q: NodePointer|
                    #![trigger final(hub).store().node_at(q)]
                    old(hub).store().contains_spec(q) && (forall|i: int|
                        0 <= i < visits.len() ==> visits[i].node != q) ==> final(hub).store().node_at(q) == old(hub).store().node_at(q)
            }),
            final(hub).diags_spec() == old(hub).diags_spec() + stale_diags(
                stale_links(
                    old(hub).store(),
                    old(self).first_child_spec(),
                    false,
                    old(hub).store().slot_count_spec(),
                ),
            ),
            forall|q: NodePointer| #![trigger final(hub).store().defunct_spec(q)]
                final(hub).store().defunct_spec(q) == old(hub).store().defunct_spec(q),
    {
        hub.update_graph(self);
        SyncGuard {  }
    }
}

/// Obtains information about scene nodes after a synchronizing traversal;
/// see [`Scene::sync_guard`].
pub struct SyncGuard {}

impl SyncGuard {
    /// The node snapshot of `object`, or nothing if its node is gone.
    ///
    /// A dead handle here is a real failure for the caller to handle,
    /// not a benign race, so it is surfaced as an explicit absence.
    pub fn resolve<T: Object>(&mut self, hub: &Hub, object: &T) -> (r: Option<Node>)
        ensures
            r == if hub.store().contains_spec(object.base_spec().node_spec()) {
                Some(
                    Node::of_internal_spec(
                        hub.store().node_at(object.base_spec().node_spec()),
                    ),
                )
            } else {
                None::<Node>
            },
    {
        hub.node_info(object.base().node_pointer())
    }
}

} // verus!
