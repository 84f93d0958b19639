//! Groups: nodes that combine several objects into a single entity.

use vstd::prelude::*;

use crate::hub::{untouched_except, Hub, Operation};
use crate::node::{NodeInternal, SubNode};
use crate::object::{Base, Object};

verus! {

/// A handle to a grouping node: other objects can be added to it and
/// moved, hidden or removed as one entity.
pub struct Group {
    object: Base,
}

impl Object for Group {
    closed spec fn base_spec(&self) -> Base {
        self.object
    }

    fn base(&self) -> (b: &Base) {
        &self.object
    }
}

impl PartialEq for Group {
    /// Handles are equal exactly when they refer to the same node.
    fn eq(&self, other: &Group) -> (r: bool) {
        self.object.node_pointer() == other.object.node_pointer()
    }
}

impl vstd::std_specs::cmp::PartialEqSpecImpl for Group {
    open spec fn obeys_eq_spec() -> bool {
        true
    }

    open spec fn eq_spec(&self, other: &Group) -> bool {
        self.base_spec().node_spec() == other.base_spec().node_spec()
    }
}

impl Eq for Group {

}

impl Group {
    /// Spawn a fresh, empty group node.
    pub fn new(hub: &mut Hub) -> (g: Group)
        ensures
            !old(hub).store().contains_spec(g.base_spec().node_spec()),
            final(hub).store().contains_spec(g.base_spec().node_spec()),
            final(hub).store().node_at(g.base_spec().node_spec()) == NodeInternal::new_spec(
                SubNode::Group { first_child: None },
            ),
            untouched_except(old(hub).store(), final(hub).store(), g.base_spec().node_spec()),
            old(hub).store().slot_count_spec() <= final(hub).store().slot_count_spec()
                <= old(hub).store().slot_count_spec() + 1,
            !final(hub).store().defunct_spec(g.base_spec().node_spec()),
            forall|q: crate::node::NodePointer| #![trigger final(hub).store().defunct_spec(q)]
                old(hub).store().defunct_spec(q) ==> final(hub).store().defunct_spec(q),
            final(hub).diags_spec() == old(hub).diags_spec(),
    {
        let object = hub.spawn(SubNode::Group { first_child: None });
        Group { object }
    }

    /// Queue adding `child` as this group's new first child.
    pub fn add<P: Object>(&self, child: &P) {
        let msg = Operation::AddChild(child.base().node_pointer());
        self.object.send(msg);
    }

    /// Queue splicing `child` out of this group's child chain.
    pub fn remove<P: Object>(&self, child: &P) {
        let msg = Operation::RemoveChild(child.base().node_pointer());
        self.object.send(msg);
    }
}

} // verus!
