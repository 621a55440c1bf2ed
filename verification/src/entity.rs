//! Numbers that stand for what the windowing toolkit owns.

use vstd::prelude::*;

verus! {

/// An entity: an item, a project item's model, or a workspace.
#[derive(Clone, Copy, PartialEq, Eq, Structural, Debug, Hash)]
pub struct EntityId(pub u64);

/// A pane. The number stays valid when the pane is gone.
#[derive(Clone, Copy, PartialEq, Eq, Structural, Debug, Hash)]
pub struct PaneId(pub u64);

/// A type that a view can have; two types have different tags.
pub type TypeTag = u64;

/// A collaborator.
#[derive(Clone, Copy, PartialEq, Eq, Structural, Debug, Hash)]
pub struct PeerId(pub u64);

} // verus!
