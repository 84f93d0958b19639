//! Diagnostics the hub records instead of writing to a log.
//!
//! Structural inconsistencies are reported here as data, so callers and
//! tests can observe exactly what the message-application and traversal
//! code noticed. Benign races (a message whose target died first) are
//! deliberately *not* reported; see the message-application contract.

use vstd::prelude::*;

use crate::node::NodePointer;

verus! {

/// How serious a diagnostic is.
#[derive(Clone, Copy, Debug, PartialEq, Eq, Structural)]
pub enum Severity {
    /// Recoverable inconsistency; the operation still went ahead.
    Warning,
    /// Unrecoverable inconsistency; the operation was dropped.
    Error,
    /// Contract violation between a wrapper type and its node's payload;
    /// the operation was dropped. Indicates a bug in the calling code.
    Fatal,
}

/// A condition the hub noticed and reported.
#[derive(Clone, Copy, Debug, PartialEq, Eq, Structural)]
pub enum Diagnostic {
    /// A node was added to a group or scene while still carrying a sibling
    /// link from an earlier parent; the old link was discarded.
    DanglingSibling {
        /// The node whose old sibling link was overwritten.
        child: NodePointer,
    },
    /// A child was to be removed from a chain that does not contain it.
    ChildNotFound {
        /// The group whose chain was searched, or nothing for the scene's
        /// own root chain.
        parent: Option<NodePointer>,
        /// The child that was not found.
        child: NodePointer,
    },
    /// An operation's expected payload kind did not match the target
    /// node's payload.
    PayloadMismatch {
        /// The node the operation addressed.
        target: NodePointer,
    },
    /// A structural operation referenced a child node that no longer
    /// exists.
    StaleChild {
        /// The dead pointer.
        child: NodePointer,
    },
    /// A sibling or child link led to a node that no longer exists; the
    /// traversal stopped following that chain.
    StaleLink {
        /// The dead pointer.
        link: NodePointer,
    },
    /// The operation is recognized but not supported by this hub.
    Unsupported {
        /// The node the operation addressed.
        target: NodePointer,
    },
}

impl Diagnostic {
    /// The severity of this diagnostic.
    pub open spec fn severity_spec(self) -> Severity {
        match self {
            Diagnostic::DanglingSibling { .. } => Severity::Warning,
            Diagnostic::ChildNotFound { .. } => Severity::Error,
            Diagnostic::PayloadMismatch { .. } => Severity::Fatal,
            Diagnostic::StaleChild { .. } => Severity::Error,
            Diagnostic::StaleLink { .. } => Severity::Warning,
            Diagnostic::Unsupported { .. } => Severity::Error,
        }
    }

    /// The severity of this diagnostic.
    pub fn severity(&self) -> (s: Severity)
        ensures
            s == self.severity_spec(),
    {
        match self {
            Diagnostic::DanglingSibling { .. } => Severity::Warning,
            Diagnostic::ChildNotFound { .. } => Severity::Error,
            Diagnostic::PayloadMismatch { .. } => Severity::Fatal,
            Diagnostic::StaleChild { .. } => Severity::Error,
            Diagnostic::StaleLink { .. } => Severity::Warning,
            Diagnostic::Unsupported { .. } => Severity::Error,
        }
    }
}

} // verus!
