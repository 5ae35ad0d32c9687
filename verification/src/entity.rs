use vstd::prelude::*;

verus! {

/// A handle to a widget: the slot it occupies in the widget tree and the
/// generation of that slot.
#[derive(Clone, Copy, Debug, PartialEq, Eq, Structural)]
pub struct Entity {
    pub index: u32,
    pub generation: u32,
}

impl Entity {
    /// The handle of the window: slot 0, generation 0.
    pub open spec fn spec_is_window(self) -> bool {
        self.index == 0 && self.generation == 0
    }

    /// Builds the handle of slot `index` in generation `generation`.
    pub fn new(index: u32, generation: u32) -> (e: Entity)
        ensures
            e.index == index,
            e.generation == generation,
    {
        Entity { index, generation }
    }

    /// Whether this handle is the window's, `Entity::new(0, 0)`.
    pub fn is_window(&self) -> (b: bool)
        ensures
            b == self.spec_is_window(),
            b == (*self == Entity { index: 0, generation: 0 }),
    {
        *self == Entity::new(0, 0)
    }
}

} // verus!
