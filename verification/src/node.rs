//! Scene graph nodes: pointers, payloads and the node record itself.

use vstd::prelude::*;

use crate::color::Color;
use crate::material::Material;
use crate::transform::{Quaternion, TransformInternal, Vector3};

verus! {

/// A generation-checked reference to a node in the store.
///
/// A pointer never keeps its node alive: resolution is a checked lookup that
/// fails cleanly once the slot has been reclaimed, so a stale pointer can
/// never alias a reused slot.
#[derive(Clone, Copy, Debug, PartialEq, Eq, Hash, Structural)]
pub struct NodePointer {
    /// Index of the slot in the store.
    pub(crate) index: usize,
    /// Generation the slot had when this pointer was issued.
    pub(crate) generation: u64,
}

impl NodePointer {
    /// The slot index this pointer addresses, as an abstract quantity:
    /// capacity lemmas on the store relate it to the slot count.
    pub open(crate) spec fn index_spec(self) -> nat {
        self.index as nat
    }
}

/// The kind of light a light node casts.
#[derive(Clone, Copy, Debug, PartialEq, Eq, Hash, Structural)]
pub enum SubLight {
    /// Uniform illumination from every direction.
    Ambient,
    /// Parallel rays along the node's orientation.
    Directional,
    /// Sky color above, `ground` color below.
    Hemisphere {
        /// Color of the lower hemisphere.
        ground: Color,
    },
    /// Rays from the node's position in every direction.
    Point,
}

/// A shadow map resource bound to a light, owned by the renderer.
#[derive(Clone, Copy, Debug, PartialEq, Eq, Hash, Structural)]
pub struct ShadowMap {
    /// Identifier of the backing depth target.
    pub resource: u64,
}

/// Lighting parameters carried by a light node.
#[derive(Clone, Debug, PartialEq, Eq, Hash, Structural)]
pub struct LightData {
    /// Light color.
    pub color: Color,
    /// Intensity, fixed-point.
    pub intensity: i64,
    /// The kind of light.
    pub sub_light: SubLight,
    /// Shadow map bound to this light, if any.
    pub shadow: Option<ShadowMap>,
}

/// Playback state of an audio source.
#[derive(Clone, Copy, Debug, PartialEq, Eq, Hash, Structural)]
pub enum PlayState {
    /// Sound is being played.
    Playing,
    /// Playback is suspended and may be resumed.
    Paused,
    /// Playback has ended.
    Stopped,
}

/// State carried by an audio node.
#[derive(Clone, Debug, PartialEq, Eq)]
pub struct AudioData {
    /// Current playback state.
    pub state: PlayState,
    /// Playback volume, fixed-point.
    pub volume: i64,
    /// Identifiers of the queued sound clips, in the order appended.
    pub clips: Vec<u64>,
}

/// A playback request queued against an audio node.
#[derive(Clone, Copy, Debug, PartialEq, Eq, Hash, Structural)]
pub enum AudioOperation {
    /// Queue the clip with the given identifier and start playing.
    Append(u64),
    /// Suspend playback.
    Pause,
    /// Resume suspended playback.
    Resume,
    /// End playback and drop the queue.
    Stop,
    /// Change the playback volume, fixed-point.
    SetVolume(i64),
}

/// Renderable content carried by a visual node.
#[derive(Clone, Debug, PartialEq, Eq)]
pub struct VisualData {
    /// Appearance of the content.
    pub material: Material,
    /// Skeleton node driving skinned deformation, if any.
    pub skeleton: Option<NodePointer>,
}

/// Bone list carried by a skeleton node.
#[derive(Clone, Debug, PartialEq, Eq)]
pub struct SkeletonData {
    /// The bone nodes, in binding order.
    pub bones: Vec<NodePointer>,
}

/// The content a node carries; a node has exactly one payload kind for its
/// lifetime.
#[derive(Clone, Debug, PartialEq, Eq)]
pub enum SubNode {
    /// No extra data: a pure transform carrier.
    Empty,
    /// A group of sub-nodes; the head of its children's sibling chain.
    Group {
        /// First child of the group, head of the sibling chain.
        first_child: Option<NodePointer>,
    },
    /// An audio source.
    Audio(AudioData),
    /// Renderable 3D content, such as a mesh.
    Visual(VisualData),
    /// Lighting information for illumination and shadow casting.
    Light(LightData),
    /// Bones that may be bound to a skinned mesh.
    Skeleton(SkeletonData),
}

/// A node of the scene graph, owned exclusively by the store.
#[derive(Clone, Debug, PartialEq, Eq)]
pub struct NodeInternal {
    /// `true` if this node (and its subtree) should be visible.
    pub visible: bool,
    /// Derived: visible and every ancestor visible. Valid only immediately
    /// after a traversal.
    pub world_visible: bool,
    /// The transform relative to the node's parent.
    pub transform: TransformInternal,
    /// Derived: the transform relative to the world origin. Valid only
    /// immediately after a traversal.
    pub world_transform: TransformInternal,
    /// Kind-specific payload.
    pub sub_node: SubNode,
    /// The next node in the parent's sibling chain.
    pub next_sibling: Option<NodePointer>,
}

impl NodeInternal {
    /// The record a freshly spawned node starts from: visible, at the
    /// identity transform, not yet placed in any sibling chain, and not
    /// world-visible until the first traversal.
    pub open spec fn new_spec(sub: SubNode) -> NodeInternal {
        NodeInternal {
            visible: true,
            world_visible: false,
            transform: TransformInternal::one_spec(),
            world_transform: TransformInternal::one_spec(),
            sub_node: sub,
            next_sibling: None,
        }
    }

    /// Build the record for a freshly spawned node.
    pub fn new(sub: SubNode) -> (r: NodeInternal)
        ensures
            r == NodeInternal::new_spec(sub),
    {
        NodeInternal {
            visible: true,
            world_visible: false,
            transform: TransformInternal::one(),
            world_transform: TransformInternal::one(),
            sub_node: sub,
            next_sibling: None,
        }
    }

    /// The head of this node's child chain: the `first_child` of a group,
    /// nothing for every other payload.
    pub open spec fn first_child_spec(self) -> Option<NodePointer> {
        match self.sub_node {
            SubNode::Group { first_child } => first_child,
            _ => None,
        }
    }
}

/// Position, rotation, and scale of a scene node, as clients see them.
#[derive(Clone, Copy, Debug, PartialEq, Eq, Hash, Structural)]
pub struct Transform {
    /// Position.
    pub position: Vector3,
    /// Orientation.
    pub orientation: Quaternion,
    /// Scale, fixed-point.
    pub scale: i64,
}

impl Transform {
    /// The identity transform, as a spec value.
    pub open spec fn identity_spec() -> Transform {
        Transform {
            position: Vector3::zero_spec(),
            orientation: Quaternion::identity_spec(),
            scale: crate::fixed::UNIT,
        }
    }

    /// The identity transform.
    pub fn identity() -> (r: Transform)
        ensures
            r == Transform::identity_spec(),
    {
        Transform {
            position: Vector3::zero(),
            orientation: Quaternion::identity(),
            scale: crate::fixed::UNIT,
        }
    }

    /// The client-facing view of an internal transform.
    pub open spec fn of_internal_spec(tf: TransformInternal) -> Transform {
        Transform {
            position: tf.disp,
            orientation: tf.rot,
            scale: tf.scale,
        }
    }

    /// Convert an internal transform into the client-facing form.
    pub fn of_internal(tf: &TransformInternal) -> (r: Transform)
        ensures
            r == Transform::of_internal_spec(*tf),
    {
        Transform {
            position: tf.disp,
            orientation: tf.rot,
            scale: tf.scale,
        }
    }
}

/// General information about a scene node, as a snapshot for clients.
#[derive(Clone, Copy, Debug, PartialEq, Eq, Hash, Structural)]
pub struct Node {
    /// Transform relative to the parent.
    pub transform: Transform,
    /// Transform relative to the world origin, as of the last traversal.
    pub world_transform: Transform,
    /// Is the node locally visible?
    pub visible: bool,
    /// Was the node world-visible as of the last traversal?
    pub world_visible: bool,
}

impl Node {
    /// The snapshot a node record resolves to.
    pub open spec fn of_internal_spec(n: NodeInternal) -> Node {
        Node {
            transform: Transform::of_internal_spec(n.transform),
            world_transform: Transform::of_internal_spec(n.world_transform),
            visible: n.visible,
            world_visible: n.world_visible,
        }
    }

    /// Take the client-facing snapshot of a node record.
    pub fn of_internal(n: &NodeInternal) -> (r: Node)
        ensures
            r == Node::of_internal_spec(*n),
    {
        Node {
            transform: Transform::of_internal(&n.transform),
            world_transform: Transform::of_internal(&n.world_transform),
            visible: n.visible,
            world_visible: n.world_visible,
        }
    }
}

} // verus!
