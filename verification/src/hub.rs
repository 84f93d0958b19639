//! The hub: exclusive owner of the node store and the mutation queue.
//!
//! Handles queue [`Operation`]s against nodes; once per frame the hub
//! drains the queue and applies each message. A message whose target node
//! no longer exists is dropped silently — that is the expected outcome of
//! the race between a mutation in flight and the node's destruction, not
//! an error. Structural inconsistencies are recorded as [`Diagnostic`]s.
//!
//! What a single message does to the store is pinned exactly by
//! [`operation_applied`]; draining ([`Hub::process_messages`]) applies that
//! relation once per queued message, in arrival order.

use vstd::prelude::*;
use vstd::pervasive::unreached;

use crate::chain::{find_in_chain, lemma_locate_before, locate_spec, ChainFind};
use crate::channel::{clone_sender, message_channel, send_message, try_recv_message};
use crate::diag::Diagnostic;
use crate::material::Material;
use crate::mesh::MAX_TARGETS;
use crate::node::{
    AudioData, AudioOperation, LightData, Node, NodeInternal, NodePointer, PlayState, ShadowMap,
    SkeletonData, SubNode, VisualData,
};
use crate::store::NodeStore;
use crate::texture::{Texel2, Texture};
use crate::transform::{Quaternion, TransformInternal, Vector3};

verus! {

/// The mutation vocabulary: a tagged request queued against one node.
pub enum Operation {
    /// Insert the node as the new first child of the target group.
    AddChild(NodePointer),
    /// Splice the node out of the target group's child chain.
    RemoveChild(NodePointer),
    /// Apply a playback request to the target audio node.
    SetAudio(AudioOperation),
    /// Overwrite the target's local visibility flag.
    SetVisible(bool),
    /// Overwrite the given components of the target's local transform;
    /// components left out are untouched.
    SetTransform(Option<Vector3>, Option<Quaternion>, Option<i64>),
    /// Overwrite the target visual node's material.
    SetMaterial(Material),
    /// Bind a skeleton node to the target visual node.
    SetSkeleton(NodePointer),
    /// Bind a shadow map to the target light node.
    SetShadow(ShadowMap),
    /// Select the texel rectangle of the target sprite's texture:
    /// base point (top-left, in texels), then extent.
    SetTexelRange(i16, i16, u16, u16),
    /// Overwrite the target's morph target weights.
    SetWeights([i64; MAX_TARGETS]),
}

/// One queued mutation: the node it addresses and what to do to it.
///
/// The pointer is weak in effect: it is resolved only when the message is
/// applied, and resolution failure drops the message silently.
pub struct Message {
    /// The node the operation addresses.
    pub target: NodePointer,
    /// What to do to it.
    pub operation: Operation,
}

/// `n` with another visibility flag.
pub open spec fn with_visible(n: NodeInternal, visible: bool) -> NodeInternal {
    NodeInternal {
        visible,
        world_visible: n.world_visible,
        transform: n.transform,
        world_transform: n.world_transform,
        sub_node: n.sub_node,
        next_sibling: n.next_sibling,
    }
}

/// `n` with another local transform.
pub open spec fn with_transform(n: NodeInternal, transform: TransformInternal) -> NodeInternal {
    NodeInternal {
        visible: n.visible,
        world_visible: n.world_visible,
        transform,
        world_transform: n.world_transform,
        sub_node: n.sub_node,
        next_sibling: n.next_sibling,
    }
}

/// `n` with another payload.
pub open spec fn with_sub(n: NodeInternal, sub_node: SubNode) -> NodeInternal {
    NodeInternal {
        visible: n.visible,
        world_visible: n.world_visible,
        transform: n.transform,
        world_transform: n.world_transform,
        sub_node,
        next_sibling: n.next_sibling,
    }
}

/// `n` with another sibling link.
pub open spec fn with_next_sibling(
    n: NodeInternal,
    next_sibling: Option<NodePointer>,
) -> NodeInternal {
    NodeInternal {
        visible: n.visible,
        world_visible: n.world_visible,
        transform: n.transform,
        world_transform: n.world_transform,
        sub_node: n.sub_node,
        next_sibling,
    }
}

/// The stores agree on every pointer other than `p`: liveness and node
/// content are untouched there. At `p` itself anything may have happened.
pub open spec fn untouched_except(s0: NodeStore, s1: NodeStore, p: NodePointer) -> bool {
    &&& forall|q: NodePointer| #![trigger s1.contains_spec(q)]
        q != p ==> s1.contains_spec(q) == s0.contains_spec(q)
    &&& forall|q: NodePointer| #![trigger s1.node_at(q)] #![trigger s0.node_at(q)]
        q != p && s0.contains_spec(q) ==> s1.node_at(q) == s0.node_at(q)
}

/// The stores agree everywhere, except that the node at `p` may differ.
pub open spec fn same_except(s0: NodeStore, s1: NodeStore, p: NodePointer) -> bool {
    &&& s1.slot_count_spec() == s0.slot_count_spec()
    &&& forall|q: NodePointer| #![trigger s1.contains_spec(q)]
        s1.contains_spec(q) == s0.contains_spec(q)
    &&& forall|q: NodePointer| #![trigger s1.node_at(q)] #![trigger s0.node_at(q)]
        q != p && s0.contains_spec(q) ==> s1.node_at(q) == s0.node_at(q)
}

/// The stores agree everywhere, except that the nodes at `p` and `c` may
/// differ.
pub open spec fn same_except2(
    s0: NodeStore,
    s1: NodeStore,
    p: NodePointer,
    c: NodePointer,
) -> bool {
    &&& s1.slot_count_spec() == s0.slot_count_spec()
    &&& forall|q: NodePointer| #![trigger s1.contains_spec(q)]
        s1.contains_spec(q) == s0.contains_spec(q)
    &&& forall|q: NodePointer| #![trigger s1.node_at(q)] #![trigger s0.node_at(q)]
        q != p && q != c && s0.contains_spec(q) ==> s1.node_at(q) == s0.node_at(q)
}

/// `t` with each given component overwritten and the others kept.
pub open spec fn transform_updated(
    t: TransformInternal,
    pos: Option<Vector3>,
    rot: Option<Quaternion>,
    scale: Option<i64>,
) -> TransformInternal {
    TransformInternal {
        disp: match pos {
            Some(v) => v,
            None => t.disp,
        },
        rot: match rot {
            Some(r) => r,
            None => t.rot,
        },
        scale: match scale {
            Some(s) => s,
            None => t.scale,
        },
    }
}

/// What a playback request does to an audio payload.
pub open spec fn audio_applied(a0: AudioData, a1: AudioData, op: AudioOperation) -> bool {
    match op {
        AudioOperation::Append(clip) => a1.state == PlayState::Playing && a1.volume == a0.volume
            && a1.clips@ == a0.clips@.push(clip),
        AudioOperation::Pause => a1.state == PlayState::Paused && a1.volume == a0.volume
            && a1.clips@ == a0.clips@,
        AudioOperation::Resume => a1.state == PlayState::Playing && a1.volume == a0.volume
            && a1.clips@ == a0.clips@,
        AudioOperation::Stop => a1.state == PlayState::Stopped && a1.volume == a0.volume
            && a1.clips@ == Seq::<u64>::empty(),
        AudioOperation::SetVolume(v) => a1.state == a0.state && a1.volume == v && a1.clips@
            == a0.clips@,
    }
}

/// `t` with its texel rectangle re-selected, exactly as
/// [`Texture::set_texel_range`] computes it.
pub open spec fn texture_with_range(
    t: Texture,
    base_x: i16,
    base_y: i16,
    size_x: u16,
    size_y: u16,
) -> Texture {
    Texture {
        resource: t.resource,
        total_size: t.total_size,
        tex0: Texel2 {
            x: base_x as i64,
            y: (t.total_size.y as i64 - base_y as i64 - size_y as i64) as i64,
        },
        tex1: Texel2 {
            x: (base_x as i64 + size_x as i64) as i64,
            y: (t.total_size.y as i64 - base_y as i64) as i64,
        },
    }
}

/// What applying `op` to the live node `target` does: how store `s0`
/// becomes `s1` and diagnostics `d0` become `d1`.
///
/// An operation whose expected payload kind does not match the target's
/// payload is a contract violation of the sending wrapper; it changes
/// nothing and is reported at fatal severity rather than silently ignored.
pub open spec fn operation_applied(
    s0: NodeStore,
    s1: NodeStore,
    d0: Seq<Diagnostic>,
    d1: Seq<Diagnostic>,
    target: NodePointer,
    op: Operation,
) -> bool
    recommends
        s0.contains_spec(target),
{
    let n0 = s0.node_at(target);
    match op {
        Operation::SetVisible(v) => {
            &&& same_except(s0, s1, target)
            &&& s1.node_at(target) == with_visible(n0, v)
            &&& d1 == d0
        },
        Operation::SetTransform(pos, rot, scale) => {
            &&& same_except(s0, s1, target)
            &&& s1.node_at(target) == with_transform(
                n0,
                transform_updated(n0.transform, pos, rot, scale),
            )
            &&& d1 == d0
        },
        Operation::SetMaterial(m) => match n0.sub_node {
            SubNode::Visual(v0) => {
                &&& same_except(s0, s1, target)
                &&& s1.node_at(target) == with_sub(
                    n0,
                    SubNode::Visual(VisualData { material: m, skeleton: v0.skeleton }),
                )
                &&& d1 == d0
            },
            _ => s1 == s0 && d1 == d0.push(Diagnostic::PayloadMismatch { target }),
        },
        Operation::SetSkeleton(sk) => match n0.sub_node {
            SubNode::Visual(v0) => {
                &&& same_except(s0, s1, target)
                &&& s1.node_at(target) == with_sub(
                    n0,
                    SubNode::Visual(VisualData { material: v0.material, skeleton: Some(sk) }),
                )
                &&& d1 == d0
            },
            _ => s1 == s0 && d1 == d0.push(Diagnostic::PayloadMismatch { target }),
        },
        Operation::SetShadow(map) => match n0.sub_node {
            SubNode::Light(l0) => {
                &&& same_except(s0, s1, target)
                &&& s1.node_at(target) == with_sub(
                    n0,
                    SubNode::Light(
                        LightData {
                            color: l0.color,
                            intensity: l0.intensity,
                            sub_light: l0.sub_light,
                            shadow: Some(map),
                        },
                    ),
                )
                &&& d1 == d0
            },
            _ => s1 == s0 && d1 == d0.push(Diagnostic::PayloadMismatch { target }),
        },
        Operation::SetTexelRange(base_x, base_y, size_x, size_y) => match n0.sub_node {
            SubNode::Visual(v0) => match v0.material {
                Material::Sprite(sp) => {
                    &&& same_except(s0, s1, target)
                    &&& s1.node_at(target) == with_sub(
                        n0,
                        SubNode::Visual(
                            VisualData {
                                material: Material::Sprite(
                                    crate::material::Sprite {
                                        map: texture_with_range(
                                            sp.map,
                                            base_x,
                                            base_y,
                                            size_x,
                                            size_y,
                                        ),
                                    },
                                ),
                                skeleton: v0.skeleton,
                            },
                        ),
                    )
                    &&& d1 == d0
                },
                _ => s1 == s0 && d1 == d0.push(Diagnostic::PayloadMismatch { target }),
            },
            _ => s1 == s0 && d1 == d0.push(Diagnostic::PayloadMismatch { target }),
        },
        Operation::SetAudio(aop) => match n0.sub_node {
            SubNode::Audio(a0) => {
                &&& same_except(s0, s1, target)
                &&& s1.node_at(target).sub_node is Audio
                &&& s1.node_at(target) == with_sub(n0, s1.node_at(target).sub_node)
                &&& audio_applied(a0, s1.node_at(target).sub_node->Audio_0, aop)
                &&& d1 == d0
            },
            _ => s1 == s0 && d1 == d0.push(Diagnostic::PayloadMismatch { target }),
        },
        Operation::SetWeights(_) => s1 == s0 && d1 == d0.push(
            Diagnostic::Unsupported { target },
        ),
        Operation::AddChild(c) => match n0.sub_node {
            SubNode::Group { first_child } => {
                if !s0.contains_spec(c) {
                    s1 == s0 && d1 == d0.push(Diagnostic::StaleChild { child: c })
                } else {
                    let warned = if s0.node_at(c).next_sibling is Some {
                        d0.push(Diagnostic::DanglingSibling { child: c })
                    } else {
                        d0
                    };
                    if c == target {
                        &&& same_except(s0, s1, target)
                        &&& s1.node_at(target) == with_next_sibling(
                            with_sub(n0, SubNode::Group { first_child: Some(c) }),
                            first_child,
                        )
                        &&& d1 == warned
                    } else {
                        &&& same_except2(s0, s1, target, c)
                        &&& s1.node_at(target) == with_sub(
                            n0,
                            SubNode::Group { first_child: Some(c) },
                        )
                        &&& s1.node_at(c) == with_next_sibling(s0.node_at(c), first_child)
                        &&& d1 == warned
                    }
                }
            },
            _ => s1 == s0 && d1 == d0.push(Diagnostic::PayloadMismatch { target }),
        },
        Operation::RemoveChild(c) => match n0.sub_node {
            SubNode::Group { first_child } => {
                if !s0.contains_spec(c) {
                    s1 == s0 && d1 == d0.push(Diagnostic::StaleChild { child: c })
                } else {
                    let nxt = s0.node_at(c).next_sibling;
                    match locate_spec(s0, first_child, c, s0.slot_count_spec()) {
                        ChainFind::AtHead => {
                            &&& same_except(s0, s1, target)
                            &&& s1.node_at(target) == with_sub(
                                n0,
                                SubNode::Group { first_child: nxt },
                            )
                            &&& d1 == d0
                        },
                        ChainFind::Before(pred) => {
                            &&& same_except(s0, s1, pred)
                            &&& s1.node_at(pred) == with_next_sibling(s0.node_at(pred), nxt)
                            &&& d1 == d0
                        },
                        ChainFind::Missing => s1 == s0 && d1 == d0.push(
                            Diagnostic::ChildNotFound { parent: Some(target), child: c },
                        ),
                    }
                }
            },
            _ => s1 == s0 && d1 == d0.push(Diagnostic::PayloadMismatch { target }),
        },
    }
}

/// Exclusive owner of the node store and the consumer end of the mutation
/// channel.
pub struct Hub {
    pub(crate) nodes: NodeStore,
    pub(crate) tx: std::sync::mpsc::Sender<Message>,
    pub(crate) rx: std::sync::mpsc::Receiver<Message>,
    pub(crate) diags: Vec<Diagnostic>,
}

impl Hub {
    /// The node store, as a spec-level value.
    pub open(crate) spec fn store(self) -> NodeStore {
        self.nodes
    }

    /// The diagnostics recorded so far, oldest first.
    pub open(crate) spec fn diags_spec(self) -> Seq<Diagnostic> {
        self.diags@
    }

    /// A hub with an empty store, an empty queue and no diagnostics.
    pub fn new() -> (h: Hub)
        ensures
            h.store().slot_count_spec() == 0,
            forall|q: NodePointer| !h.store().contains_spec(q),
            h.diags_spec() == Seq::<Diagnostic>::empty(),
    {
        let (tx, rx) = message_channel();
        Hub { nodes: NodeStore::new(), tx, rx, diags: Vec::new() }
    }

    /// Spawn a node with the given payload and hand out a handle to it.
    ///
    /// The node starts visible, at the identity transform, outside every
    /// sibling chain, and not world-visible until the first traversal.
    pub fn spawn(&mut self, sub: SubNode) -> (obj: crate::object::Base)
        ensures
            !old(self).store().contains_spec(obj.node_spec()),
            final(self).store().contains_spec(obj.node_spec()),
            final(self).store().node_at(obj.node_spec()) == NodeInternal::new_spec(sub),
            untouched_except(old(self).store(), final(self).store(), obj.node_spec()),
            old(self).store().slot_count_spec() <= final(self).store().slot_count_spec()
                <= old(self).store().slot_count_spec() + 1,
            !final(self).store().defunct_spec(obj.node_spec()),
            forall|q: NodePointer| #![trigger final(self).store().defunct_spec(q)]
                old(self).store().defunct_spec(q) ==> final(self).store().defunct_spec(q),
            final(self).diags_spec() == old(self).diags_spec(),
    {
        let node = self.nodes.create(sub);
        crate::object::Base { node, tx: clone_sender(&self.tx) }
    }

    /// Spawn a pure grouping node with no payload.
    pub fn spawn_empty(&mut self) -> (obj: crate::object::Base)
        ensures
            !old(self).store().contains_spec(obj.node_spec()),
            final(self).store().contains_spec(obj.node_spec()),
            final(self).store().node_at(obj.node_spec()) == NodeInternal::new_spec(SubNode::Empty),
            untouched_except(old(self).store(), final(self).store(), obj.node_spec()),
            old(self).store().slot_count_spec() <= final(self).store().slot_count_spec()
                <= old(self).store().slot_count_spec() + 1,
            !final(self).store().defunct_spec(obj.node_spec()),
            forall|q: NodePointer| #![trigger final(self).store().defunct_spec(q)]
                old(self).store().defunct_spec(q) ==> final(self).store().defunct_spec(q),
            final(self).diags_spec() == old(self).diags_spec(),
    {
        self.spawn(SubNode::Empty)
    }

    /// Spawn a node carrying renderable content.
    pub fn spawn_visual(&mut self, visual_data: VisualData) -> (obj: crate::object::Base)
        ensures
            !old(self).store().contains_spec(obj.node_spec()),
            final(self).store().contains_spec(obj.node_spec()),
            final(self).store().node_at(obj.node_spec()) == NodeInternal::new_spec(
                SubNode::Visual(visual_data),
            ),
            untouched_except(old(self).store(), final(self).store(), obj.node_spec()),
            old(self).store().slot_count_spec() <= final(self).store().slot_count_spec()
                <= old(self).store().slot_count_spec() + 1,
            !final(self).store().defunct_spec(obj.node_spec()),
            forall|q: NodePointer| #![trigger final(self).store().defunct_spec(q)]
                old(self).store().defunct_spec(q) ==> final(self).store().defunct_spec(q),
            final(self).diags_spec() == old(self).diags_spec(),
    {
        self.spawn(SubNode::Visual(visual_data))
    }

    /// Spawn a node carrying a light.
    pub fn spawn_light(&mut self, data: LightData) -> (obj: crate::object::Base)
        ensures
            !old(self).store().contains_spec(obj.node_spec()),
            final(self).store().contains_spec(obj.node_spec()),
            final(self).store().node_at(obj.node_spec()) == NodeInternal::new_spec(
                SubNode::Light(data),
            ),
            untouched_except(old(self).store(), final(self).store(), obj.node_spec()),
            old(self).store().slot_count_spec() <= final(self).store().slot_count_spec()
                <= old(self).store().slot_count_spec() + 1,
            !final(self).store().defunct_spec(obj.node_spec()),
            forall|q: NodePointer| #![trigger final(self).store().defunct_spec(q)]
                old(self).store().defunct_spec(q) ==> final(self).store().defunct_spec(q),
            final(self).diags_spec() == old(self).diags_spec(),
    {
        self.spawn(SubNode::Light(data))
    }

    /// Spawn a node carrying an audio source.
    pub fn spawn_audio_source(&mut self, data: AudioData) -> (obj: crate::object::Base)
        ensures
            !old(self).store().contains_spec(obj.node_spec()),
            final(self).store().contains_spec(obj.node_spec()),
            final(self).store().node_at(obj.node_spec()) == NodeInternal::new_spec(
                SubNode::Audio(data),
            ),
            untouched_except(old(self).store(), final(self).store(), obj.node_spec()),
            old(self).store().slot_count_spec() <= final(self).store().slot_count_spec()
                <= old(self).store().slot_count_spec() + 1,
            !final(self).store().defunct_spec(obj.node_spec()),
            forall|q: NodePointer| #![trigger final(self).store().defunct_spec(q)]
                old(self).store().defunct_spec(q) ==> final(self).store().defunct_spec(q),
            final(self).diags_spec() == old(self).diags_spec(),
    {
        self.spawn(SubNode::Audio(data))
    }

    /// Spawn a node carrying a bone list.
    pub fn spawn_skeleton(&mut self, data: SkeletonData) -> (obj: crate::object::Base)
        ensures
            !old(self).store().contains_spec(obj.node_spec()),
            final(self).store().contains_spec(obj.node_spec()),
            final(self).store().node_at(obj.node_spec()) == NodeInternal::new_spec(
                SubNode::Skeleton(data),
            ),
            untouched_except(old(self).store(), final(self).store(), obj.node_spec()),
            old(self).store().slot_count_spec() <= final(self).store().slot_count_spec()
                <= old(self).store().slot_count_spec() + 1,
            !final(self).store().defunct_spec(obj.node_spec()),
            forall|q: NodePointer| #![trigger final(self).store().defunct_spec(q)]
                old(self).store().defunct_spec(q) ==> final(self).store().defunct_spec(q),
            final(self).diags_spec() == old(self).diags_spec(),
    {
        self.spawn(SubNode::Skeleton(data))
    }

    /// Destroy the node `p` refers to, if it is still alive.
    ///
    /// Every handle and queued message referring to it will fail to
    /// resolve from now on; its slot is reclaimed at the next safe point.
    pub fn destroy(&mut self, p: NodePointer) -> (found: bool)
        ensures
            found == old(self).store().contains_spec(p),
            !final(self).store().contains_spec(p),
            untouched_except(old(self).store(), final(self).store(), p),
            final(self).store().slot_count_spec() == old(self).store().slot_count_spec(),
            found ==> final(self).store().defunct_spec(p),
            forall|q: NodePointer| #![trigger final(self).store().defunct_spec(q)]
                old(self).store().defunct_spec(q) ==> final(self).store().defunct_spec(q),
            final(self).diags_spec() == old(self).diags_spec(),
    {
        self.nodes.destroy(p)
    }

    /// A snapshot of the node `p` refers to, or nothing if it is gone.
    pub fn node_info(&self, p: NodePointer) -> (r: Option<Node>)
        ensures
            r == if self.store().contains_spec(p) {
                Some(Node::of_internal_spec(self.store().node_at(p)))
            } else {
                None::<Node>
            },
    {
        if self.nodes.contains(p) {
            Some(Node::of_internal(self.nodes.lookup(p)))
        } else {
            None
        }
    }

    /// The payload of the node `p` refers to, or nothing if it is gone.
    pub fn payload(&self, p: NodePointer) -> (r: Option<&SubNode>)
        ensures
            self.store().contains_spec(p) ==> r == Some(&self.store().node_at(p).sub_node),
            !self.store().contains_spec(p) ==> r is None,
    {
        if self.nodes.contains(p) {
            Some(&self.nodes.lookup(p).sub_node)
        } else {
            None
        }
    }

    /// The diagnostics recorded so far, oldest first.
    pub fn diagnostics(&self) -> (r: &Vec<Diagnostic>)
        ensures
            r@ == self.diags_spec(),
    {
        &self.diags
    }

    /// Apply one mutation message.
    ///
    /// If the target node no longer exists the message is dropped with no
    /// effect and no diagnostic: that race is expected. Otherwise the
    /// store and diagnostics change exactly as [`operation_applied`] says.
    pub fn apply_message(&mut self, msg: Message)
        ensures
            !old(self).store().contains_spec(msg.target) ==> final(self).store() == old(self).store() && final(self).diags_spec() == old(self).diags_spec(),
            old(self).store().contains_spec(msg.target) ==> operation_applied(
                old(self).store(),
                final(self).store(),
                old(self).diags_spec(),
                final(self).diags_spec(),
                msg.target,
                msg.operation,
            ),
            forall|q: NodePointer| #![trigger final(self).store().defunct_spec(q)]
                final(self).store().defunct_spec(q) == old(self).store().defunct_spec(q),
    {
        let target = msg.target;
        if !self.nodes.contains(target) {
            return;
        }
        match msg.operation {
            Operation::SetVisible(v) => {
                let n = self.nodes.lookup_mut(target);
                n.visible = v;
            },
            Operation::SetTransform(pos, rot, scale) => {
                let n = self.nodes.lookup_mut(target);
                match pos {
                    Some(v) => n.transform.disp = v,
                    None => (),
                }
                match rot {
                    Some(r) => n.transform.rot = r,
                    None => (),
                }
                match scale {
                    Some(s) => n.transform.scale = s,
                    None => (),
                }
            },
            Operation::SetMaterial(m) => {
                let is_visual = matches!(self.nodes.lookup(target).sub_node, SubNode::Visual(_));
                if is_visual {
                    let n = self.nodes.lookup_mut(target);
                    match &mut n.sub_node {
                        SubNode::Visual(v) => v.material = m,
                        _ => unreached(),
                    }
                } else {
                    self.diags.push(Diagnostic::PayloadMismatch { target });
                }
            },
            Operation::SetSkeleton(sk) => {
                let is_visual = matches!(self.nodes.lookup(target).sub_node, SubNode::Visual(_));
                if is_visual {
                    let n = self.nodes.lookup_mut(target);
                    match &mut n.sub_node {
                        SubNode::Visual(v) => v.skeleton = Some(sk),
                        _ => unreached(),
                    }
                } else {
                    self.diags.push(Diagnostic::PayloadMismatch { target });
                }
            },
            Operation::SetShadow(map) => {
                let is_light = matches!(self.nodes.lookup(target).sub_node, SubNode::Light(_));
                if is_light {
                    let n = self.nodes.lookup_mut(target);
                    match &mut n.sub_node {
                        SubNode::Light(l) => l.shadow = Some(map),
                        _ => unreached(),
                    }
                } else {
                    self.diags.push(Diagnostic::PayloadMismatch { target });
                }
            },
            Operation::SetTexelRange(base_x, base_y, size_x, size_y) => {
                let is_sprite = match &self.nodes.lookup(target).sub_node {
                    SubNode::Visual(v) => matches!(v.material, Material::Sprite(_)),
                    _ => false,
                };
                if is_sprite {
                    let n = self.nodes.lookup_mut(target);
                    match &mut n.sub_node {
                        SubNode::Visual(v) => match &mut v.material {
                            Material::Sprite(sp) => sp.map.set_texel_range(
                                base_x,
                                base_y,
                                size_x,
                                size_y,
                            ),
                            _ => unreached(),
                        },
                        _ => unreached(),
                    }
                } else {
                    self.diags.push(Diagnostic::PayloadMismatch { target });
                }
            },
            Operation::SetAudio(aop) => {
                let is_audio = matches!(self.nodes.lookup(target).sub_node, SubNode::Audio(_));
                if is_audio {
                    let n = self.nodes.lookup_mut(target);
                    match &mut n.sub_node {
                        SubNode::Audio(a) => Hub::process_audio(aop, a),
                        _ => unreached(),
                    }
                } else {
                    self.diags.push(Diagnostic::PayloadMismatch { target });
                }
            },
            Operation::SetWeights(_) => {
                self.diags.push(Diagnostic::Unsupported { target });
            },
            Operation::AddChild(c) => {
                let is_group = matches!(self.nodes.lookup(target).sub_node, SubNode::Group { .. });
                if !is_group {
                    self.diags.push(Diagnostic::PayloadMismatch { target });
                    return;
                }
                if !self.nodes.contains(c) {
                    self.diags.push(Diagnostic::StaleChild { child: c });
                    return;
                }
                let old_first = match &self.nodes.lookup(target).sub_node {
                    SubNode::Group { first_child } => *first_child,
                    _ => unreached(),
                };
                let warn = self.nodes.lookup(c).next_sibling.is_some();
                let n = self.nodes.lookup_mut(target);
                n.sub_node = SubNode::Group { first_child: Some(c) };
                let cn = self.nodes.lookup_mut(c);
                cn.next_sibling = old_first;
                if warn {
                    self.diags.push(Diagnostic::DanglingSibling { child: c });
                }
            },
            Operation::RemoveChild(c) => {
                let is_group = matches!(self.nodes.lookup(target).sub_node, SubNode::Group { .. });
                if !is_group {
                    self.diags.push(Diagnostic::PayloadMismatch { target });
                    return;
                }
                if !self.nodes.contains(c) {
                    self.diags.push(Diagnostic::StaleChild { child: c });
                    return;
                }
                let nxt = self.nodes.lookup(c).next_sibling;
                let first = match &self.nodes.lookup(target).sub_node {
                    SubNode::Group { first_child } => *first_child,
                    _ => unreached(),
                };
                match find_in_chain(&self.nodes, first, c) {
                    ChainFind::AtHead => {
                        let n = self.nodes.lookup_mut(target);
                        n.sub_node = SubNode::Group { first_child: nxt };
                    },
                    ChainFind::Before(pred) => {
                        proof {
                            lemma_locate_before(
                                self.nodes,
                                first,
                                c,
                                self.nodes.slot_count_spec(),
                                pred,
                            );
                        }
                        let pn = self.nodes.lookup_mut(pred);
                        pn.next_sibling = nxt;
                    },
                    ChainFind::Missing => {
                        self.diags.push(
                            Diagnostic::ChildNotFound { parent: Some(target), child: c },
                        );
                    },
                }
            },
        }
    }

    /// Apply one playback request to an audio payload, exactly as
    /// [`audio_applied`] says.
    fn process_audio(operation: AudioOperation, data: &mut AudioData)
        ensures
            audio_applied(*old(data), *final(data), operation),
    {
        match operation {
            AudioOperation::Append(clip) => {
                data.state = PlayState::Playing;
                data.clips.push(clip);
            },
            AudioOperation::Pause => data.state = PlayState::Paused,
            AudioOperation::Resume => data.state = PlayState::Playing,
            AudioOperation::Stop => {
                data.state = PlayState::Stopped;
                data.clips = Vec::new();
            },
            AudioOperation::SetVolume(v) => data.volume = v,
        }
    }

    /// Drain the queue without blocking and apply every message that is
    /// waiting, in arrival order, then let the store reclaim the slots
    /// vacated since the last frame.
    ///
    /// Each message changes the hub exactly as [`Hub::apply_message`]
    /// says; nothing else changes, and diagnostics are only ever appended.
    pub fn process_messages(&mut self)
        ensures
            old(self).diags_spec().is_prefix_of(final(self).diags_spec()),
            final(self).store().slot_count_spec() == old(self).store().slot_count_spec(),
            forall|q: NodePointer| #![trigger final(self).store().contains_spec(q)]
                final(self).store().contains_spec(q) == old(self).store().contains_spec(q),
            forall|q: NodePointer| #![trigger final(self).store().defunct_spec(q)]
                final(self).store().defunct_spec(q) == old(self).store().defunct_spec(q),
    {
        // The budget only serves to bound the loop; no real queue comes
        // anywhere near it.
        let mut budget: usize = usize::MAX;
        loop
            invariant
                old(self).diags_spec().is_prefix_of(self.diags_spec()),
                self.store().slot_count_spec() == old(self).store().slot_count_spec(),
                forall|q: NodePointer| #![trigger self.store().contains_spec(q)]
                    self.store().contains_spec(q) == old(self).store().contains_spec(q),
                forall|q: NodePointer| #![trigger self.store().defunct_spec(q)]
                    self.store().defunct_spec(q) == old(self).store().defunct_spec(q),
            decreases budget,
        {
            if budget == 0 {
                break;
            }
            budget = budget - 1;
            let ghost before = self.diags@;
            match try_recv_message(&self.rx) {
                Some(msg) => {
                    let ghost store_before = self.nodes;
                    self.apply_message(msg);
                    proof {
                        if store_before.contains_spec(msg.target) {
                            lemma_applied_preserves_liveness(
                                store_before,
                                self.nodes,
                                before,
                                self.diags@,
                                msg.target,
                                msg.operation,
                            );
                        }
                        assert(self.diags@.subrange(0, before.len() as int) =~= before);
                        assert(self.diags@.subrange(0, old(self).diags@.len() as int) =~= old(self).diags@);
                    }
                },
                None => {
                    break;
                },
            }
        }
        self.nodes.sync_pending();
    }
}

/// Applying any message can change a node's attributes or links, but it
/// never creates or destroys a node: every pointer resolves afterwards
/// exactly as it did before.
pub proof fn lemma_applied_preserves_liveness(
    s0: NodeStore,
    s1: NodeStore,
    d0: Seq<Diagnostic>,
    d1: Seq<Diagnostic>,
    target: NodePointer,
    op: Operation,
)
    requires
        s0.contains_spec(target),
        operation_applied(s0, s1, d0, d1, target, op),
    ensures
        s1.slot_count_spec() == s0.slot_count_spec(),
        forall|q: NodePointer| #![trigger s1.contains_spec(q)]
            s1.contains_spec(q) == s0.contains_spec(q),
{
}

/// A transform message with no components is a no-op: applying it leaves
/// every node of the store, and the diagnostics, exactly as they were.
pub proof fn lemma_set_transform_noop(
    s0: NodeStore,
    s1: NodeStore,
    d0: Seq<Diagnostic>,
    d1: Seq<Diagnostic>,
    target: NodePointer,
)
    requires
        s0.contains_spec(target),
        operation_applied(s0, s1, d0, d1, target, Operation::SetTransform(None, None, None)),
    ensures
        d1 == d0,
        forall|q: NodePointer| #![trigger s1.contains_spec(q)]
            s1.contains_spec(q) == s0.contains_spec(q),
        forall|q: NodePointer| #![trigger s1.node_at(q)]
            s0.contains_spec(q) ==> s1.node_at(q) == s0.node_at(q),
{
    assert(s1.node_at(target) == s0.node_at(target));
}

/// A partial transform message does not clobber: overwriting only the
/// position leaves orientation and scale — and every other field of the
/// node — exactly as they were.
pub proof fn lemma_set_transform_partial(
    s0: NodeStore,
    s1: NodeStore,
    d0: Seq<Diagnostic>,
    d1: Seq<Diagnostic>,
    target: NodePointer,
    pos: Vector3,
)
    requires
        s0.contains_spec(target),
        operation_applied(
            s0,
            s1,
            d0,
            d1,
            target,
            Operation::SetTransform(Some(pos), None, None),
        ),
    ensures
        d1 == d0,
        same_except(s0, s1, target),
        s1.node_at(target).transform.disp == pos,
        s1.node_at(target).transform.rot == s0.node_at(target).transform.rot,
        s1.node_at(target).transform.scale == s0.node_at(target).transform.scale,
        s1.node_at(target).visible == s0.node_at(target).visible,
        s1.node_at(target).sub_node == s0.node_at(target).sub_node,
        s1.node_at(target).next_sibling == s0.node_at(target).next_sibling,
{
}

} // verus!
