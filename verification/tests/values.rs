//! The plain value types: constructors, defaults and packing.

use swoop_ui::Name;
use swoop_ui::View;
use swoop_ui::ViewToBundle;
use swoop_ui::assets::FontHandle;
use swoop_ui::assets::ImageHandle;
use swoop_ui::background::BackgroundStyle;
use swoop_ui::background::ImageNode;
use swoop_ui::background::NodeImageMode;
use swoop_ui::border::BorderRadius;
use swoop_ui::border::BorderStyle;
use swoop_ui::button::text_button::TextButton;
use swoop_ui::color::Rgba;
use swoop_ui::layout::GridPlacement;
use swoop_ui::shadow::ShadowStyle;
use swoop_ui::shadow::TextShadow;
use swoop_ui::text::TextStyle;
use swoop_ui::text::TextView;
use swoop_ui::units::Offset;
use swoop_ui::units::UiRect;
use swoop_ui::units::Val;

#[test]
fn ui_rect_constructors() {
    let r = UiRect::new(Val::Px(1), Val::Px(2), Val::Px(3), Val::Px(4));
    assert_eq!(r.left, Val::Px(1));
    assert_eq!(r.right, Val::Px(2));
    assert_eq!(r.top, Val::Px(3));
    assert_eq!(r.bottom, Val::Px(4));

    assert_eq!(
        UiRect::all(Val::Percent(10)),
        UiRect::new(Val::Percent(10), Val::Percent(10), Val::Percent(10), Val::Percent(10)),
    );
    assert_eq!(
        UiRect::axes(Val::Px(5), Val::Px(9)),
        UiRect::new(Val::Px(5), Val::Px(5), Val::Px(9), Val::Px(9)),
    );
    assert_eq!(UiRect::zero(), UiRect::all(Val::Px(0)));
    assert_eq!(UiRect::default(), UiRect::zero());
    assert_eq!(Val::default(), Val::Auto);
}

#[test]
fn rgba_constructors() {
    assert_eq!(Rgba::white(), Rgba::new(255, 255, 255, 255));
    assert_eq!(Rgba::black(), Rgba::new(0, 0, 0, 255));
    assert_eq!(Rgba::clear(), Rgba::new(0, 0, 0, 0));
    assert_eq!(Rgba::default(), Rgba::clear());
}

#[test]
fn grid_placement_constructors() {
    assert_eq!(
        GridPlacement::auto(),
        GridPlacement { start: None, span: Some(1), end: None },
    );
    assert_eq!(GridPlacement::default(), GridPlacement::auto());
    assert_eq!(
        GridPlacement::start(-2),
        GridPlacement { start: Some(-2), span: Some(1), end: None },
    );
    assert_eq!(
        GridPlacement::end(4),
        GridPlacement { start: None, span: Some(1), end: Some(4) },
    );
    assert_eq!(
        GridPlacement::span(5),
        GridPlacement { start: None, span: Some(5), end: None },
    );
    assert_eq!(
        GridPlacement::start_span(1, 2),
        GridPlacement { start: Some(1), span: Some(2), end: None },
    );
}

#[test]
fn style_defaults() {
    assert_eq!(ImageHandle::default(), ImageHandle { id: 0 });
    assert_eq!(FontHandle::default(), FontHandle { id: 0 });
    assert_eq!(
        ImageNode::default(),
        ImageNode { image: ImageHandle { id: 0 }, image_mode: NodeImageMode::Auto },
    );
    assert_eq!(
        BackgroundStyle::default(),
        BackgroundStyle { color: Rgba::clear(), image: ImageNode::default() },
    );
    assert_eq!(
        BackgroundStyle::button(),
        BackgroundStyle { color: Rgba::white(), image: ImageNode::default() },
    );
    assert_eq!(BorderRadius::default(), BorderRadius::all(Val::Px(0)));
    assert_eq!(
        BorderStyle::default(),
        BorderStyle { border_radius: BorderRadius::default(), border_color: Rgba::clear() },
    );
    assert_eq!(
        ShadowStyle::default(),
        ShadowStyle {
            color: Rgba::black(),
            x_offset: Val::Percent(20),
            y_offset: Val::Percent(20),
            spread_radius: Val::Px(0),
            blur_radius: Val::Percent(10),
        },
    );
    assert_eq!(
        TextShadow::default(),
        TextShadow { offset: Offset::new(4, 4), color: Rgba::new(0, 0, 0, 191) },
    );
    assert_eq!(Offset::default(), Offset::new(0, 0));
    assert_eq!(TextStyle::button(), TextStyle::default());
}

#[test]
fn name_new_and_set() {
    let mut n = Name::new("first".to_string());
    assert_eq!(n.text, "first");
    n.set("second".to_string());
    assert_eq!(n.text, "second");
}

#[test]
fn pack_carries_every_component_over() {
    let v = TextButton::new()
        .name("confirm".to_string())
        .text("Yes".to_string())
        .text_color(Rgba::white());
    let before = v.clone();
    let bundle = v.pack();
    assert_eq!(bundle.name, before.name);
    assert_eq!(bundle.node, before.node);
    assert_eq!(bundle.border, before.border);
    assert_eq!(bundle.background, before.background);
    assert_eq!(bundle.box_shadow, before.box_shadow);
    assert_eq!(bundle.content.text, before.text);
    assert_eq!(bundle.content.text_shadow, before.text_shadow);
    assert_eq!(bundle.content.text.text.value, "Yes");
}
