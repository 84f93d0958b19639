//! A retained-mode scene graph with a decoupled mutation protocol.
//!
//! Client code holds lightweight, cloneable handles ([`object::Base`] and the
//! typed wrappers around it) that queue mutation messages against a central
//! [`hub::Hub`]. The hub owns the node store, drains the message queue once
//! per frame, and then recomputes world-space transforms and visibility by a
//! depth-first traversal. A pruning [`walker::TreeWalker`] yields the nodes
//! a renderer should consider.
//!
//! All scalar quantities (positions, rotations, scales) are fixed-point
//! numbers with a 16-bit fractional part, so every computation here is exact
//! integer arithmetic with saturation; see [`fixed`].

pub mod chain;
pub mod channel;
pub mod color;
pub mod diag;
pub mod fixed;
pub mod group;
pub mod hub;
pub mod material;
pub mod mesh;
pub mod node;
pub mod object;
pub mod render;
pub mod scene;
pub mod sprite;
pub mod store;
pub mod texture;
pub mod transform;
pub mod walker;
