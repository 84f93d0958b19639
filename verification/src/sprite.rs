//! Sprites: two-dimensional bitmaps integrated into a larger scene.

use vstd::prelude::*;

use crate::hub::Operation;
use crate::object::{Base, Object};

verus! {

/// A handle to a node carrying a two-dimensional bitmap.
pub struct Sprite {
    pub(crate) object: Base,
}

impl Object for Sprite {
    closed spec fn base_spec(&self) -> Base {
        self.object
    }

    fn base(&self) -> (b: &Base) {
        &self.object
    }
}

impl PartialEq for Sprite {
    /// Handles are equal exactly when they refer to the same node.
    fn eq(&self, other: &Sprite) -> (r: bool) {
        self.object.node_pointer() == other.object.node_pointer()
    }
}

impl vstd::std_specs::cmp::PartialEqSpecImpl for Sprite {
    open spec fn obeys_eq_spec() -> bool {
        true
    }

    open spec fn eq_spec(&self, other: &Sprite) -> bool {
        self.base_spec().node_spec() == other.base_spec().node_spec()
    }
}

impl Eq for Sprite {

}

impl Sprite {
    /// Wrap a freshly spawned sprite node.
    pub fn new(object: Base) -> (s: Sprite)
        ensures
            s.base_spec().node_spec() == object.node_spec(),
    {
        Sprite { object }
    }

    /// Queue selecting the area of the texture to render: the base texel
    /// (top-left) and the extent. Useful for sequential animations.
    pub fn set_texel_range(&self, base_x: i16, base_y: i16, size_x: u16, size_y: u16) {
        self.object.send(Operation::SetTexelRange(base_x, base_y, size_x, size_y));
    }
}

} // verus!
