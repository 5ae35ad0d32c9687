use vstd::prelude::*;
use crate::entity::Entity;

verus! {

/// Events that concern the widget tree itself.
#[derive(Clone, Copy, Debug, PartialEq, Eq, Structural)]
pub enum WidgetEvent {
    /// The second entity was added as a child of the first.
    AddChild(Entity, Entity),
    /// The pointer entered the entity.
    MouseEnter(Entity),
    /// The pointer left the entity.
    MouseLeave(Entity),
}

} // verus!
