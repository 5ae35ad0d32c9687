use vstd::prelude::*;
use crate::entity::Entity;
use crate::style::{Align, Justify, Length, Visibility};

verus! {

/// A widget is drawn unless it is the window, it is invisible, it is fully
/// transparent, or it has no width or no height.
pub open spec fn spec_should_draw(
    entity: Entity,
    visibility: Visibility,
    opacity_is_zero: bool,
    width_is_zero: bool,
    height_is_zero: bool,
) -> bool {
    &&& !entity.spec_is_window()
    &&& visibility == Visibility::Visible
    &&& !opacity_is_zero
    &&& !width_is_zero
    &&& !height_is_zero
}

/// Decides whether a widget is painted at all. The window itself, invisible
/// widgets, fully transparent widgets and widgets with no width or no height
/// are skipped, in that order.
pub fn should_draw(
    entity: Entity,
    visibility: Visibility,
    opacity_is_zero: bool,
    width_is_zero: bool,
    height_is_zero: bool,
) -> (b: bool)
    ensures
        b == spec_should_draw(entity, visibility, opacity_is_zero, width_is_zero, height_is_zero),
        entity.spec_is_window() ==> !b,
        visibility == Visibility::Invisible ==> !b,
        opacity_is_zero ==> !b,
        width_is_zero || height_is_zero ==> !b,
        b <==> ((entity.index != 0 || entity.generation != 0) && visibility == Visibility::Visible
            && !opacity_is_zero && !width_is_zero && !height_is_zero),
{
    if entity.is_window() {
        return false;
    }
    if let Visibility::Invisible = visibility {
        return false;
    }
    if opacity_is_zero {
        return false;
    }
    if width_is_zero || height_is_zero {
        return false;
    }
    true
}

/// The padding a widget's text keeps from its edge: a length in pixels is
/// taken as it is; an unset padding, or one given in any other unit,
/// counts as `zero`.
pub open spec fn spec_padding<T>(len: Option<Length<T>>, zero: T) -> T {
    match len {
        Some(Length::Pixels(v)) => v,
        _ => zero,
    }
}

/// Resolves one side's padding.
pub fn padding<T: Copy>(len: Option<Length<T>>, zero: T) -> (r: T)
    ensures
        r == spec_padding(len, zero),
        len matches Some(Length::Pixels(v)) ==> r == v,
        !(len matches Some(Length::Pixels(_))) ==> r == zero,
{
    match len.unwrap_or(Length::Auto) {
        Length::Pixels(v) => v,
        _ => zero,
    }
}

/// Resolves one corner's radius: pixels are taken as they are, a percentage
/// is scaled by the parent's width through `of_parent`, and an unset radius
/// is `zero`.
pub fn corner_radius<T: Copy, F: Fn(T) -> T>(len: Length<T>, of_parent: F, zero: T) -> (r: T)
    requires
        forall|v: T| call_requires(of_parent, (v,)),
    ensures
        len matches Length::Pixels(v) ==> r == v,
        len matches Length::Percentage(v) ==> call_ensures(of_parent, (v,), r),
        len is Auto ==> r == zero,
{
    match len {
        Length::Pixels(v) => v,
        Length::Percentage(v) => of_parent(v),
        Length::Auto => zero,
    }
}

/// Which of the two loaded fonts a text is set in.
#[derive(Clone, Copy, Debug, PartialEq, Eq, Structural)]
pub enum FontChoice {
    Regular,
    Icons,
}

/// The font named "Icons" is the icon font; "Sans" and every other name
/// fall back to the regular font.
pub open spec fn spec_font_choice(name: Seq<char>) -> FontChoice {
    if name == "Icons"@ {
        FontChoice::Icons
    } else {
        FontChoice::Regular
    }
}

/// Chooses the font for a text from its font name.
pub fn font_choice(name: &str) -> (c: FontChoice)
    ensures
        c == spec_font_choice(name@),
        name@ == "Icons"@ ==> c == FontChoice::Icons,
        name@ != "Icons"@ ==> c == FontChoice::Regular,
{
    proof {
        reveal_strlit("Sans");
        reveal_strlit("Icons");
    }
    let owned = name.to_owned();
    let sans = "Sans".to_owned();
    let icons = "Icons".to_owned();
    // The two names differ in length, so a name cannot be both.
    assert("Sans"@.len() != "Icons"@.len());
    if owned == sans {
        FontChoice::Regular
    } else if owned == icons {
        FontChoice::Icons
    } else {
        FontChoice::Regular
    }
}

/// The loaded font that `choice` selects.
pub open spec fn spec_font_slot<T>(choice: FontChoice, regular: Option<T>, icons: Option<T>) -> Option<T> {
    match choice {
        FontChoice::Regular => regular,
        FontChoice::Icons => icons,
    }
}

/// Picks, from the loaded fonts, the one a text named `name` is set in:
/// `None` when that font has not been loaded.
pub fn pick_font<T: Copy>(name: &str, regular: Option<T>, icons: Option<T>) -> (f: Option<T>)
    ensures
        f == spec_font_slot(spec_font_choice(name@), regular, icons),
        name@ == "Icons"@ ==> f == icons,
        name@ != "Icons"@ ==> f == regular,
{
    match font_choice(name) {
        FontChoice::Regular => regular,
        FontChoice::Icons => icons,
    }
}

/// Horizontal alignment of text about its anchor point.
#[derive(Clone, Copy, Debug, PartialEq, Eq, Structural)]
pub enum TextAlign {
    Left,
    Center,
    Right,
}

/// Vertical alignment of text about its anchor point.
#[derive(Clone, Copy, Debug, PartialEq, Eq, Structural)]
pub enum TextBaseline {
    Top,
    Middle,
    Bottom,
}

/// Where, along one axis of the widget, its text is anchored: past the
/// leading padding, at the middle of the extent, or before the trailing
/// padding at the far edge.
#[derive(Clone, Copy, Debug, PartialEq, Eq, Structural)]
pub enum Anchor {
    AfterLeadingPadding,
    Middle,
    BeforeTrailingPadding,
}

/// How a widget's text is placed: its alignment and baseline, and the
/// anchor point along each axis.
#[derive(Clone, Copy, Debug, PartialEq, Eq, Structural)]
pub struct TextPlacement {
    pub align: TextAlign,
    pub baseline: TextBaseline,
    pub x: Anchor,
    pub y: Anchor,
}

pub open spec fn spec_anchor_x(justify: Justify) -> Anchor {
    match justify {
        Justify::Start => Anchor::AfterLeadingPadding,
        Justify::Center => Anchor::Middle,
        Justify::End => Anchor::BeforeTrailingPadding,
    }
}

pub open spec fn spec_anchor_y(align: Align) -> Anchor {
    match align {
        Align::Start => Anchor::AfterLeadingPadding,
        Align::Center => Anchor::Middle,
        Align::End => Anchor::BeforeTrailingPadding,
    }
}

/// The text alignment that goes with a horizontal anchor.
pub open spec fn spec_align_of(x: Anchor) -> TextAlign {
    match x {
        Anchor::AfterLeadingPadding => TextAlign::Left,
        Anchor::Middle => TextAlign::Center,
        Anchor::BeforeTrailingPadding => TextAlign::Right,
    }
}

/// The baseline that goes with a vertical anchor.
pub open spec fn spec_baseline_of(y: Anchor) -> TextBaseline {
    match y {
        Anchor::AfterLeadingPadding => TextBaseline::Top,
        Anchor::Middle => TextBaseline::Middle,
        Anchor::BeforeTrailingPadding => TextBaseline::Bottom,
    }
}

/// Places a widget's text from its horizontal justification and vertical
/// alignment: start is left/top after the padding, center is the middle of
/// the widget, end is right/bottom before the padding.
pub fn text_placement(justify: Justify, align: Align) -> (p: TextPlacement)
    ensures
        p.x == spec_anchor_x(justify),
        p.y == spec_anchor_y(align),
        p.align == spec_align_of(p.x),
        p.baseline == spec_baseline_of(p.y),
        justify == Justify::Start ==> p.align == TextAlign::Left && p.x == Anchor::AfterLeadingPadding,
        justify == Justify::Center ==> p.align == TextAlign::Center && p.x == Anchor::Middle,
        justify == Justify::End ==> p.align == TextAlign::Right && p.x == Anchor::BeforeTrailingPadding,
        align == Align::Start ==> p.baseline == TextBaseline::Top && p.y == Anchor::AfterLeadingPadding,
        align == Align::Center ==> p.baseline == TextBaseline::Middle && p.y == Anchor::Middle,
        align == Align::End ==> p.baseline == TextBaseline::Bottom && p.y == Anchor::BeforeTrailingPadding,
{
    let (text_align, x) = match justify {
        Justify::Start => (TextAlign::Left, Anchor::AfterLeadingPadding),
        Justify::Center => (TextAlign::Center, Anchor::Middle),
        Justify::End => (TextAlign::Right, Anchor::BeforeTrailingPadding),
    };
    let (baseline, y) = match align {
        Align::Start => (TextBaseline::Top, Anchor::AfterLeadingPadding),
        Align::Center => (TextBaseline::Middle, Anchor::Middle),
        Align::End => (TextBaseline::Bottom, Anchor::BeforeTrailingPadding),
    };
    TextPlacement { align: text_align, baseline, x, y }
}

/// One call a widget's drawing makes on the canvas.
#[derive(Clone, Copy, Debug, PartialEq, Eq, Structural)]
pub enum DrawStep {
    /// Save the canvas state.
    Save,
    /// Move the origin to the widget's centre.
    TranslateToCentre,
    /// Rotate by the widget's rotation.
    Rotate,
    /// Move the origin back from the widget's centre.
    TranslateBack,
    /// Stroke the widget's rounded box with its border.
    StrokeBox,
    /// Fill the widget's rounded box with its background.
    FillBox,
    /// Fill the widget's text.
    FillText,
    /// Restore the canvas state.
    Restore,
}

/// Why drawing a widget stops short.
#[derive(Clone, Copy, Debug, PartialEq, Eq, Structural)]
pub enum DrawAbort {
    /// The widget has no parent to size its corners against.
    NoParent,
    /// The font its text is set in has not been loaded.
    FontNotLoaded,
}

/// The steps that draw a widget's box: save the canvas, rotate about the
/// widget's centre, then stroke and fill the rounded box.
pub open spec fn spec_box_steps() -> Seq<DrawStep> {
    seq![
        DrawStep::Save,
        DrawStep::TranslateToCentre,
        DrawStep::Rotate,
        DrawStep::TranslateBack,
        DrawStep::StrokeBox,
        DrawStep::FillBox,
    ]
}

/// The canvas calls that draw a widget, in order, and whether drawing stops
/// short. A widget that is not drawn makes no call. One without a parent
/// stops before any call. Otherwise its box is drawn; then, if it has text
/// whose font is not loaded, drawing stops there; else the text is filled
/// when there is one, and the canvas is restored.
pub open spec fn spec_draw_steps(
    draw: bool,
    has_parent: bool,
    has_text: bool,
    font_loaded: bool,
) -> (Seq<DrawStep>, Option<DrawAbort>) {
    if !draw {
        (Seq::empty(), None)
    } else if !has_parent {
        (Seq::empty(), Some(DrawAbort::NoParent))
    } else if has_text && !font_loaded {
        (spec_box_steps(), Some(DrawAbort::FontNotLoaded))
    } else if has_text {
        (spec_box_steps().push(DrawStep::FillText).push(DrawStep::Restore), None)
    } else {
        (spec_box_steps().push(DrawStep::Restore), None)
    }
}

/// Plans the canvas calls that draw a widget, and where drawing stops short.
/// `draw` is the outcome of `should_draw`; `font_loaded` says whether the
/// font the widget's text is set in has been loaded.
pub fn draw_steps(draw: bool, has_parent: bool, has_text: bool, font_loaded: bool) -> (r: (
    Vec<DrawStep>,
    Option<DrawAbort>,
))
    ensures
        r.0@ == spec_draw_steps(draw, has_parent, has_text, font_loaded).0,
        r.1 == spec_draw_steps(draw, has_parent, has_text, font_loaded).1,
        !draw ==> r.0@.len() == 0 && r.1 is None,
        draw && !has_parent ==> r.0@.len() == 0 && r.1 == Some(DrawAbort::NoParent),
        draw && has_parent && has_text && !font_loaded ==> r.1 == Some(DrawAbort::FontNotLoaded)
            && r.0@ == seq![
                DrawStep::Save,
                DrawStep::TranslateToCentre,
                DrawStep::Rotate,
                DrawStep::TranslateBack,
                DrawStep::StrokeBox,
                DrawStep::FillBox,
            ],
        draw && has_parent && has_text && font_loaded ==> r.1 is None
            && r.0@ == seq![
                DrawStep::Save,
                DrawStep::TranslateToCentre,
                DrawStep::Rotate,
                DrawStep::TranslateBack,
                DrawStep::StrokeBox,
                DrawStep::FillBox,
                DrawStep::FillText,
                DrawStep::Restore,
            ],
        draw && has_parent && !has_text ==> r.1 is None
            && r.0@ == seq![
                DrawStep::Save,
                DrawStep::TranslateToCentre,
                DrawStep::Rotate,
                DrawStep::TranslateBack,
                DrawStep::StrokeBox,
                DrawStep::FillBox,
                DrawStep::Restore,
            ],
{
    let mut steps: Vec<DrawStep> = Vec::new();
    if !draw {
        return (steps, None);
    }
    if !has_parent {
        return (steps, Some(DrawAbort::NoParent));
    }
    steps.push(DrawStep::Save);
    steps.push(DrawStep::TranslateToCentre);
    steps.push(DrawStep::Rotate);
    steps.push(DrawStep::TranslateBack);
    steps.push(DrawStep::StrokeBox);
    steps.push(DrawStep::FillBox);
    assert(steps@ =~= spec_box_steps());
    if has_text {
        if !font_loaded {
            return (steps, Some(DrawAbort::FontNotLoaded));
        }
        steps.push(DrawStep::FillText);
    }
    steps.push(DrawStep::Restore);
    (steps, None)
}

/// A plan that stops short never ends by restoring the canvas, and a plan
/// that is carried through ends by restoring it whenever it makes any call:
/// every `Save` is matched by a `Restore` exactly when drawing completes.
pub proof fn lemma_completed_plan_restores(draw: bool, has_parent: bool, has_text: bool, font_loaded: bool)
    ensures
        ({
            let (steps, abort) = spec_draw_steps(draw, has_parent, has_text, font_loaded);
            &&& abort is None && steps.len() > 0 ==> steps[0] == DrawStep::Save && steps.last() == DrawStep::Restore
            &&& abort is Some ==> !steps.contains(DrawStep::Restore)
            &&& steps.contains(DrawStep::FillText) <==> (draw && has_parent && has_text && font_loaded)
        }),
{
    let (steps, abort) = spec_draw_steps(draw, has_parent, has_text, font_loaded);
    let b = spec_box_steps();
    if abort is Some && steps.len() > 0 {
        assert(steps == b);
        assert forall|i: int| 0 <= i < b.len() implies b[i] != DrawStep::Restore by {}
    }
    if draw && has_parent && has_text && font_loaded {
        assert(steps[6] == DrawStep::FillText);
    } else if draw && has_parent {
        assert forall|i: int| 0 <= i < steps.len() implies steps[i] != DrawStep::FillText by {}
    }
}

/// Only the window is skipped for who it is: every other widget that is
/// visible, not fully transparent and has a non-zero width and height is
/// drawn, and a widget that fails any of these is not.
pub proof fn lemma_drawn_exactly_when_shown(
    entity: Entity,
    visibility: Visibility,
    opacity_is_zero: bool,
    width_is_zero: bool,
    height_is_zero: bool,
)
    ensures
        spec_should_draw(entity, visibility, opacity_is_zero, width_is_zero, height_is_zero) <==> (
            (entity.index != 0 || entity.generation != 0) && visibility != Visibility::Invisible
            && !opacity_is_zero && !width_is_zero && !height_is_zero),
{
}

/// A widget that is not drawn makes no canvas call and never stops short,
/// whether or not it has a parent, a text or a loaded font; a drawn widget
/// always makes a call unless it has no parent.
pub proof fn lemma_skipped_widget_makes_no_call(
    draw: bool,
    has_parent: bool,
    has_text: bool,
    font_loaded: bool,
)
    ensures
        !draw ==> spec_draw_steps(draw, has_parent, has_text, font_loaded).0.len() == 0
            && spec_draw_steps(draw, has_parent, has_text, font_loaded).1 is None,
        draw && has_parent ==> spec_draw_steps(draw, has_parent, has_text, font_loaded).0.len() > 0
            && spec_draw_steps(draw, has_parent, has_text, font_loaded).0[0] == DrawStep::Save,
        draw && !has_parent ==> spec_draw_steps(draw, has_parent, has_text, font_loaded).0.len() == 0
            && spec_draw_steps(draw, has_parent, has_text, font_loaded).1 == Some(DrawAbort::NoParent),
{
}

/// How a widget answers an event when its handler does not say otherwise:
/// it leaves the event unhandled.
pub fn default_on_event<E: ?Sized>(entity: Entity, event: &E) -> (handled: bool)
    ensures
        !handled,
{
    false
}

} // verus!
