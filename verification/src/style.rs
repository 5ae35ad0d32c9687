use vstd::prelude::*;

verus! {

/// Whether a widget is shown.
#[derive(Clone, Copy, Debug, PartialEq, Eq, Structural)]
pub enum Visibility {
    Visible,
    Invisible,
}

impl Default for Visibility {
    fn default() -> (v: Visibility)
        ensures
            v == Visibility::Visible,
    {
        Visibility::Visible
    }
}

/// Horizontal placement of a widget's text.
#[derive(Clone, Copy, Debug, PartialEq, Eq, Structural)]
pub enum Justify {
    Start,
    Center,
    End,
}

impl Default for Justify {
    fn default() -> (j: Justify)
        ensures
            j == Justify::Start,
    {
        Justify::Start
    }
}

/// Vertical placement of a widget's text.
#[derive(Clone, Copy, Debug, PartialEq, Eq, Structural)]
pub enum Align {
    Start,
    Center,
    End,
}

impl Default for Align {
    fn default() -> (a: Align)
        ensures
            a == Align::Start,
    {
        Align::Start
    }
}

/// A length of a style property: unset, an absolute number of pixels, or a
/// fraction of a reference length.
#[derive(Clone, Copy, Debug)]
pub enum Length<T> {
    Auto,
    Pixels(T),
    Percentage(T),
}

impl<T> Default for Length<T> {
    fn default() -> (l: Length<T>)
        ensures
            l is Auto,
    {
        Length::Auto
    }
}

/// The radii of a widget's four corners.
#[derive(Clone, Copy, Debug)]
pub struct BorderRadius<T> {
    pub top_left: Length<T>,
    pub top_right: Length<T>,
    pub bottom_left: Length<T>,
    pub bottom_right: Length<T>,
}

impl<T> Default for BorderRadius<T> {
    fn default() -> (b: BorderRadius<T>)
        ensures
            b.top_left is Auto,
            b.top_right is Auto,
            b.bottom_left is Auto,
            b.bottom_right is Auto,
    {
        BorderRadius {
            top_left: Length::Auto,
            top_right: Length::Auto,
            bottom_left: Length::Auto,
            bottom_right: Length::Auto,
        }
    }
}

} // verus!
