//! Vertex-attribute scalars and uniform-block descriptors shared with the
//! rendering backend.

use vstd::prelude::*;

verus! {

/// Normalized signed 8-bit rational: the wire form of a vertex attribute
/// component in `[-1, 1]`.
#[derive(Clone, Copy, Debug, Default, Eq, Hash, Ord, PartialEq, PartialOrd)]
pub struct I8Norm(pub i8);

/// Represents a uniform block in a program: its C-string name, its
/// binding index, and an initial value for the buffer data.
pub struct UniformBlockBinding<T> {
    /// The uniform block name, which must be a C string.
    pub name: &'static [u8],
    /// The uniform block binding index.
    pub index: u32,
    /// An initial value for the uniform buffer data.
    pub init: T,
}

} // verus!
