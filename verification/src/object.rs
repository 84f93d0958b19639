//! Client-facing handles to scene nodes.
//!
//! A [`Base`] is a node pointer plus a sender into the hub's mutation
//! channel. It is freely cloneable, never blocks, and never reports whether
//! a queued mutation was applied: every `set_*` method is fire-and-forget.
//! The [`Object`] trait lets any typed wrapper (mesh, group, sprite, ...)
//! be treated uniformly wherever a scene participant is required.

use vstd::prelude::*;

use crate::channel::{clone_sender, send_message};
use crate::hub::{Message, Operation};
use crate::mesh::MAX_TARGETS;
use crate::node::NodePointer;
use crate::transform::{Quaternion, Vector3};

verus! {

/// A concrete handle to a node in the scene graph.
///
/// One cannot usefully construct `Base` directly; the hub's `spawn`
/// methods and the typed wrappers hand them out.
pub struct Base {
    pub(crate) node: NodePointer,
    pub(crate) tx: std::sync::mpsc::Sender<Message>,
}

impl Base {
    /// The pointer this handle refers to.
    pub open(crate) spec fn node_spec(self) -> NodePointer {
        self.node
    }

    /// The pointer this handle refers to.
    pub fn node_pointer(&self) -> (p: NodePointer)
        ensures
            p == self.node_spec(),
    {
        self.node
    }

    /// The message this handle would queue for an operation: it targets
    /// exactly this handle's node and carries exactly the given operation.
    pub fn message_for(&self, operation: Operation) -> (m: Message)
        ensures
            m.target == self.node_spec(),
            m.operation == operation,
    {
        Message { target: self.node, operation }
    }

    /// Queue an operation against this handle's node.
    pub(crate) fn send(&self, operation: Operation) {
        let message = self.message_for(operation);
        send_message(&self.tx, message);
    }

    /// Queue a visibility change. Invisible objects are not rendered.
    pub fn set_visible(&self, visible: bool) {
        self.send(Operation::SetVisible(visible));
    }

    /// Queue a combined update of position, orientation and scale.
    pub fn set_transform(&self, pos: Vector3, rot: Quaternion, scale: i64) {
        self.send(Operation::SetTransform(Some(pos), Some(rot), Some(scale)));
    }

    /// Queue a combined position and orientation change; the scale is
    /// untouched. This is the message a look-at computation issues.
    pub fn set_pose(&self, pos: Vector3, rot: Quaternion) {
        self.send(Operation::SetTransform(Some(pos), Some(rot), None));
    }

    /// Queue a position change; orientation and scale are untouched.
    pub fn set_position(&self, pos: Vector3) {
        self.send(Operation::SetTransform(Some(pos), None, None));
    }

    /// Queue an orientation change; position and scale are untouched.
    pub fn set_orientation(&self, rot: Quaternion) {
        self.send(Operation::SetTransform(None, Some(rot), None));
    }

    /// Queue a scale change; position and orientation are untouched.
    pub fn set_scale(&self, scale: i64) {
        self.send(Operation::SetTransform(None, None, Some(scale)));
    }

    /// Queue a morph target weight change.
    pub fn set_weights(&self, weights: [i64; MAX_TARGETS]) {
        self.send(Operation::SetWeights(weights));
    }
}

impl Clone for Base {
    /// A clone refers to the same node and sends into the same channel.
    fn clone(&self) -> (r: Base)
        ensures
            r.node_spec() == self.node_spec(),
    {
        Base { node: self.node, tx: clone_sender(&self.tx) }
    }
}

impl PartialEq for Base {
    /// Handles are equal exactly when they refer to the same node.
    fn eq(&self, other: &Base) -> (r: bool) {
        self.node == other.node
    }
}

impl vstd::std_specs::cmp::PartialEqSpecImpl for Base {
    open spec fn obeys_eq_spec() -> bool {
        true
    }

    open spec fn eq_spec(&self, other: &Base) -> bool {
        self.node_spec() == other.node_spec()
    }
}

impl Eq for Base {

}

/// Marks types that participate in the scene graph: anything that can
/// produce its underlying [`Base`] handle gains the common mutation
/// vocabulary.
pub trait Object {
    /// The underlying handle, as a spec-level value.
    spec fn base_spec(&self) -> Base;

    /// Borrow the underlying handle.
    fn base(&self) -> (b: &Base)
        ensures
            *b == self.base_spec(),
    ;

    /// Clone out the underlying handle.
    fn upcast(&self) -> (b: Base)
        ensures
            b.node_spec() == self.base_spec().node_spec(),
    {
        self.base().clone()
    }

    /// Queue a visibility change. Invisible objects are not rendered.
    fn set_visible(&self, visible: bool) {
        self.base().set_visible(visible);
    }

    /// Queue a combined update of position, orientation and scale.
    fn set_transform(&self, pos: Vector3, rot: Quaternion, scale: i64) {
        self.base().set_transform(pos, rot, scale);
    }

    /// Queue a position change; orientation and scale are untouched.
    fn set_position(&self, pos: Vector3) {
        self.base().set_position(pos);
    }

    /// Queue an orientation change; position and scale are untouched.
    fn set_orientation(&self, rot: Quaternion) {
        self.base().set_orientation(rot);
    }

    /// Queue a scale change; position and orientation are untouched.
    fn set_scale(&self, scale: i64) {
        self.base().set_scale(scale);
    }
}

impl Object for Base {
    closed spec fn base_spec(&self) -> Base {
        *self
    }

    fn base(&self) -> (b: &Base) {
        self
    }
}

} // verus!
