//! Nullable references to entities of the scene and to widgets.

use vstd::prelude::*;

verus! {

/// A reference to an entity held in a [`crate::pool::Pool`]: a node of the
/// scene graph, a scene, or an animation of a player.
///
/// The reference with index 0 and generation 0 is the null reference, which
/// resolves to nothing.
#[derive(Clone, Copy, Debug, PartialEq, Eq, Structural, Hash)]
pub struct EntityRef {
    pub index: u32,
    pub generation: u32,
}

impl EntityRef {
    /// The null reference.
    pub open spec fn spec_none() -> EntityRef {
        EntityRef { index: 0, generation: 0 }
    }

    /// Whether this is the null reference.
    pub open spec fn spec_is_none(&self) -> bool {
        self.index == 0 && self.generation == 0
    }

    pub fn new(index: u32, generation: u32) -> (r: EntityRef)
        ensures
            r.index == index,
            r.generation == generation,
    {
        EntityRef { index, generation }
    }

    pub fn none() -> (r: EntityRef)
        ensures
            r == EntityRef::spec_none(),
            r.spec_is_none(),
    {
        EntityRef { index: 0, generation: 0 }
    }

    pub fn is_none(&self) -> (r: bool)
        ensures
            r == self.spec_is_none(),
            r == (*self == EntityRef::spec_none()),
    {
        self.index == 0 && self.generation == 0
    }

    pub fn is_some(&self) -> (r: bool)
        ensures
            r == !self.spec_is_none(),
    {
        !self.is_none()
    }
}

impl Default for EntityRef {
    fn default() -> (r: EntityRef)
        ensures
            r == EntityRef::spec_none(),
    {
        EntityRef::none()
    }
}

/// A reference to a widget of the user interface. The controller never looks
/// behind it: it only compares references and addresses messages with them.
#[derive(Clone, Copy, Debug, PartialEq, Eq, Structural, Hash)]
pub struct WidgetRef {
    pub index: u32,
    pub generation: u32,
}

impl WidgetRef {
    /// The null reference.
    pub open spec fn spec_none() -> WidgetRef {
        WidgetRef { index: 0, generation: 0 }
    }

    pub fn new(index: u32, generation: u32) -> (r: WidgetRef)
        ensures
            r.index == index,
            r.generation == generation,
    {
        WidgetRef { index, generation }
    }

    pub fn none() -> (r: WidgetRef)
        ensures
            r == WidgetRef::spec_none(),
    {
        WidgetRef { index: 0, generation: 0 }
    }
}

impl Default for WidgetRef {
    fn default() -> (r: WidgetRef)
        ensures
            r == WidgetRef::spec_none(),
    {
        WidgetRef::none()
    }
}

} // verus!
