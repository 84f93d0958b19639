//! Mesh handles and morph target bookkeeping.

use vstd::prelude::*;

use crate::hub::Operation;
use crate::material::Material;
use crate::object::{Base, Object};

verus! {

/// The maximum number of displacement [`Target`]s able to influence a mesh.
pub const MAX_TARGETS: usize = 8;

/// Defines a target of displacement.
#[derive(Clone, Copy, Debug, PartialEq, Eq, Hash, Structural)]
pub enum Target {
    /// Target the position attribute.
    Position,
    /// Target the normal attribute.
    Normal,
    /// Target the tangent attribute.
    Tangent,
    /// Leave the attribute unchanged.
    Unchanged,
}

impl Default for Target {
    /// Leave the attribute unchanged.
    fn default() -> (r: Target)
        ensures
            r == Target::Unchanged,
    {
        Target::Unchanged
    }
}

/// A handle to a node carrying renderable geometry with a material.
pub struct Mesh {
    pub(crate) object: Base,
}

impl Object for Mesh {
    closed spec fn base_spec(&self) -> Base {
        self.object
    }

    fn base(&self) -> (b: &Base) {
        &self.object
    }
}

/// A handle to a node carrying a bone list for skinned meshes.
pub struct Skeleton {
    pub(crate) object: Base,
}

impl Object for Skeleton {
    closed spec fn base_spec(&self) -> Base {
        self.object
    }

    fn base(&self) -> (b: &Base) {
        &self.object
    }
}

impl PartialEq for Mesh {
    /// Handles are equal exactly when they refer to the same node.
    fn eq(&self, other: &Mesh) -> (r: bool) {
        self.object.node_pointer() == other.object.node_pointer()
    }
}

impl vstd::std_specs::cmp::PartialEqSpecImpl for Mesh {
    open spec fn obeys_eq_spec() -> bool {
        true
    }

    open spec fn eq_spec(&self, other: &Mesh) -> bool {
        self.base_spec().node_spec() == other.base_spec().node_spec()
    }
}

impl Eq for Mesh {

}

impl Skeleton {
    /// Wrap a freshly spawned skeleton node.
    pub fn new(object: Base) -> (s: Skeleton)
        ensures
            s.base_spec().node_spec() == object.node_spec(),
    {
        Skeleton { object }
    }
}

impl Mesh {
    /// Wrap a freshly spawned visual node.
    pub fn new(object: Base) -> (m: Mesh)
        ensures
            m.base_spec().node_spec() == object.node_spec(),
    {
        Mesh { object }
    }

    /// Queue a material change.
    pub fn set_material(&mut self, material: Material) {
        self.object.send(Operation::SetMaterial(material));
    }

    /// Queue binding a skeleton to the mesh.
    pub fn set_skeleton(&mut self, skeleton: &Skeleton) {
        self.object.send(Operation::SetSkeleton(skeleton.object.node));
    }

    /// Queue a morph target weight change.
    pub fn set_weights(&mut self, weights: [i64; MAX_TARGETS]) {
        self.object.send(Operation::SetWeights(weights));
    }
}

/// A mesh whose geometry can be changed from the CPU side to animate it.
pub struct Dynamic {
    pub(crate) object: Base,
    pub(crate) num_vertices: usize,
}

impl Object for Dynamic {
    closed spec fn base_spec(&self) -> Base {
        self.object
    }

    fn base(&self) -> (b: &Base) {
        &self.object
    }
}

impl PartialEq for Dynamic {
    /// Handles are equal exactly when they refer to the same node.
    fn eq(&self, other: &Dynamic) -> (r: bool) {
        self.object.node_pointer() == other.object.node_pointer()
    }
}

impl vstd::std_specs::cmp::PartialEqSpecImpl for Dynamic {
    open spec fn obeys_eq_spec() -> bool {
        true
    }

    open spec fn eq_spec(&self, other: &Dynamic) -> bool {
        self.base_spec().node_spec() == other.base_spec().node_spec()
    }
}

impl Eq for Dynamic {

}

impl Dynamic {
    /// Wrap a freshly spawned visual node whose geometry holds
    /// `num_vertices` vertices.
    pub fn new(object: Base, num_vertices: usize) -> (d: Dynamic)
        ensures
            d.base_spec().node_spec() == object.node_spec(),
            d.vertex_count_spec() == num_vertices,
    {
        Dynamic { object, num_vertices }
    }

    /// The number of vertices this mesh can hold.
    pub closed spec fn vertex_count_spec(self) -> usize {
        self.num_vertices
    }

    /// The number of vertices of the geometry base shape.
    pub fn vertex_count(&self) -> (n: usize)
        ensures
            n == self.vertex_count_spec(),
    {
        self.num_vertices
    }

    /// Queue a material change.
    pub fn set_material(&mut self, material: Material) {
        self.object.send(Operation::SetMaterial(material));
    }
}

} // verus!
