use tuix::draw::{
    corner_radius, default_on_event, draw_steps, font_choice, padding, pick_font, should_draw,
    text_placement, Anchor, DrawAbort, DrawStep, FontChoice, TextAlign, TextBaseline,
};
use tuix::entity::Entity;
use tuix::event::WidgetEvent;
use tuix::style::{Align, BorderRadius, Justify, Length, Visibility};

#[test]
fn entity_new_keeps_index_and_generation() {
    let e = Entity::new(7, 3);
    assert_eq!(e.index, 7);
    assert_eq!(e.generation, 3);
}

#[test]
fn only_slot_zero_generation_zero_is_window() {
    assert!(Entity::new(0, 0).is_window());
    assert!(!Entity::new(0, 1).is_window());
    assert!(!Entity::new(1, 0).is_window());
}

#[test]
fn widget_events_compare_by_kind_and_entities() {
    let a = Entity::new(1, 0);
    let b = Entity::new(2, 0);
    assert_eq!(WidgetEvent::AddChild(a, b), WidgetEvent::AddChild(a, b));
    assert_ne!(WidgetEvent::AddChild(a, b), WidgetEvent::AddChild(b, a));
    assert_ne!(WidgetEvent::MouseEnter(a), WidgetEvent::MouseLeave(a));
    assert_ne!(WidgetEvent::MouseEnter(a), WidgetEvent::MouseEnter(b));
    let copy = WidgetEvent::MouseLeave(b).clone();
    assert_eq!(copy, WidgetEvent::MouseLeave(b));
}

#[test]
fn ordinary_visible_widget_is_drawn() {
    assert!(should_draw(Entity::new(4, 0), Visibility::Visible, false, false, false));
}

#[test]
fn window_is_never_drawn() {
    assert!(!should_draw(Entity::new(0, 0), Visibility::Visible, false, false, false));
}

#[test]
fn invisible_widget_is_not_drawn() {
    assert!(!should_draw(Entity::new(4, 0), Visibility::Invisible, false, false, false));
}

#[test]
fn transparent_widget_is_not_drawn() {
    assert!(!should_draw(Entity::new(4, 0), Visibility::Visible, true, false, false));
}

#[test]
fn widget_without_width_or_height_is_not_drawn() {
    assert!(!should_draw(Entity::new(4, 0), Visibility::Visible, false, true, false));
    assert!(!should_draw(Entity::new(4, 0), Visibility::Visible, false, false, true));
}

#[test]
fn padding_in_pixels_is_kept_and_other_units_are_zero() {
    assert_eq!(padding(Some(Length::Pixels(5.0f32)), 0.0), 5.0);
    assert_eq!(padding(Some(Length::Percentage(0.5f32)), 0.0), 0.0);
    assert_eq!(padding(Some(Length::<f32>::Auto), 0.0), 0.0);
    assert_eq!(padding(None::<Length<f32>>, 0.0), 0.0);
}

#[test]
fn corner_radius_resolves_each_unit() {
    let parent_width = 200.0f32;
    let of_parent = |v: f32| parent_width * v;
    assert_eq!(corner_radius(Length::Pixels(6.0f32), of_parent, 0.0), 6.0);
    assert_eq!(corner_radius(Length::Percentage(0.25f32), of_parent, 0.0), 50.0);
    assert_eq!(corner_radius(Length::<f32>::Auto, of_parent, 0.0), 0.0);
}

#[test]
fn default_border_radius_is_square() {
    let r: BorderRadius<f32> = BorderRadius::default();
    assert_eq!(corner_radius(r.top_left, |v: f32| 10.0 * v, 0.0), 0.0);
    assert_eq!(corner_radius(r.bottom_right, |v: f32| 10.0 * v, 0.0), 0.0);
}

#[test]
fn icons_font_only_for_icons_name() {
    assert_eq!(font_choice("Icons"), FontChoice::Icons);
    assert_eq!(font_choice("Sans"), FontChoice::Regular);
    assert_eq!(font_choice("Serif"), FontChoice::Regular);
    assert_eq!(font_choice(""), FontChoice::Regular);
    assert_eq!(font_choice("icons"), FontChoice::Regular);
}

#[test]
fn pick_font_takes_the_loaded_slot() {
    assert_eq!(pick_font("Icons", Some(1u32), Some(2u32)), Some(2));
    assert_eq!(pick_font("Sans", Some(1u32), Some(2u32)), Some(1));
    assert_eq!(pick_font("Other", Some(1u32), None), Some(1));
    assert_eq!(pick_font("Icons", None, Some(9u32)), Some(9));
    assert_eq!(pick_font("Icons", Some(1u32), None), None);
    assert_eq!(pick_font("Sans", None, Some(2u32)), None);
}

#[test]
fn start_justify_and_align_anchor_after_padding_at_top_left() {
    let p = text_placement(Justify::Start, Align::Start);
    assert_eq!(p.align, TextAlign::Left);
    assert_eq!(p.baseline, TextBaseline::Top);
    assert_eq!(p.x, Anchor::AfterLeadingPadding);
    assert_eq!(p.y, Anchor::AfterLeadingPadding);
}

#[test]
fn centered_text_anchors_in_the_middle() {
    let p = text_placement(Justify::Center, Align::Center);
    assert_eq!(p.align, TextAlign::Center);
    assert_eq!(p.baseline, TextBaseline::Middle);
    assert_eq!(p.x, Anchor::Middle);
    assert_eq!(p.y, Anchor::Middle);
}

#[test]
fn end_justify_and_align_anchor_before_padding_at_bottom_right() {
    let p = text_placement(Justify::End, Align::End);
    assert_eq!(p.align, TextAlign::Right);
    assert_eq!(p.baseline, TextBaseline::Bottom);
    assert_eq!(p.x, Anchor::BeforeTrailingPadding);
    assert_eq!(p.y, Anchor::BeforeTrailingPadding);
}

#[test]
fn mixed_placement_keeps_axes_apart() {
    let p = text_placement(Justify::End, Align::Start);
    assert_eq!(p.align, TextAlign::Right);
    assert_eq!(p.baseline, TextBaseline::Top);
}

#[test]
fn style_defaults() {
    assert_eq!(Justify::default(), Justify::Start);
    assert_eq!(Align::default(), Align::Start);
    assert_eq!(Visibility::default(), Visibility::Visible);
    assert!(matches!(Length::<f32>::default(), Length::Auto));
    let p = text_placement(Justify::default(), Align::default());
    assert_eq!(p.align, TextAlign::Left);
    assert_eq!(p.baseline, TextBaseline::Top);
}

const BOX: [DrawStep; 6] = [
    DrawStep::Save,
    DrawStep::TranslateToCentre,
    DrawStep::Rotate,
    DrawStep::TranslateBack,
    DrawStep::StrokeBox,
    DrawStep::FillBox,
];

#[test]
fn skipped_widget_makes_no_call() {
    let (steps, abort) = draw_steps(false, true, true, true);
    assert!(steps.is_empty());
    assert_eq!(abort, None);
    let (steps, abort) = draw_steps(false, false, true, false);
    assert!(steps.is_empty());
    assert_eq!(abort, None);
}

#[test]
fn widget_without_parent_stops_before_any_call() {
    let (steps, abort) = draw_steps(true, false, false, true);
    assert!(steps.is_empty());
    assert_eq!(abort, Some(DrawAbort::NoParent));
}

#[test]
fn box_without_text_is_drawn_then_restored() {
    let (steps, abort) = draw_steps(true, true, false, false);
    let mut expected = BOX.to_vec();
    expected.push(DrawStep::Restore);
    assert_eq!(steps, expected);
    assert_eq!(abort, None);
}

#[test]
fn text_is_filled_between_box_and_restore() {
    let (steps, abort) = draw_steps(true, true, true, true);
    let mut expected = BOX.to_vec();
    expected.push(DrawStep::FillText);
    expected.push(DrawStep::Restore);
    assert_eq!(steps, expected);
    assert_eq!(abort, None);
}

#[test]
fn unloaded_font_stops_after_the_box() {
    let (steps, abort) = draw_steps(true, true, true, false);
    assert_eq!(steps, BOX.to_vec());
    assert_eq!(abort, Some(DrawAbort::FontNotLoaded));
}

#[test]
fn default_handler_leaves_events_unhandled() {
    let e = Entity::new(5, 1);
    assert!(!default_on_event(e, &WidgetEvent::MouseEnter(e)));
    assert!(!default_on_event(e, "any message"));
    assert!(!default_on_event(e, &42u64));
}
