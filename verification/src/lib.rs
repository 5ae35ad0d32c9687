//! Widget events and the decisions a widget makes when it is drawn:
//! whether it is drawn at all, how its paddings and corner radii are
//! resolved, which font its text uses and where that text is anchored.
//! The drawing itself (floating-point geometry handed to a vector canvas)
//! lives outside this library.
pub mod entity;
pub mod event;
pub mod style;
pub mod draw;
