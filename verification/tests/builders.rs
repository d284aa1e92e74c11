//! Each chainable method writes exactly the field it names and leaves the
//! rest of the builder unchanged.

use swoop_ui::View;
use swoop_ui::background::BackgroundView;
use swoop_ui::background::ImageNode;
use swoop_ui::background::NodeImageMode;
use swoop_ui::assets::FontHandle;
use swoop_ui::assets::ImageHandle;
use swoop_ui::border::BorderRadius;
use swoop_ui::border::BorderView;
use swoop_ui::button::text_button::TextButton;
use swoop_ui::color::Rgba;
use swoop_ui::container::grid::GridView;
use swoop_ui::container::grid::h_grid::HGrid;
use swoop_ui::container::stack::StackView;
use swoop_ui::container::stack::h_stack::HStack;
use swoop_ui::container::stack::v_stack::VStack;
use swoop_ui::layout::AlignItems;
use swoop_ui::layout::FlexDirection;
use swoop_ui::layout::FlexWrap;
use swoop_ui::layout::GridAutoFlow;
use swoop_ui::layout::GridPlacement;
use swoop_ui::layout::GridTrack;
use swoop_ui::layout::GridTrackRepetition;
use swoop_ui::layout::JustifyContent;
use swoop_ui::layout::PositionType;
use swoop_ui::layout::RepeatedGridTrack;
use swoop_ui::position::PositionView;
use swoop_ui::shadow::BoxShadowView;
use swoop_ui::shadow::ShadowStyle;
use swoop_ui::shadow::TextShadowView;
use swoop_ui::text::JustifyText;
use swoop_ui::text::LineBreak;
use swoop_ui::text::LineHeight;
use swoop_ui::text::FontSmoothing;
use swoop_ui::text::TextView;
use swoop_ui::text::swoop_text::SwoopText;
use swoop_ui::units::Offset;
use swoop_ui::units::UiRect;
use swoop_ui::units::Val;

#[test]
fn sizing_setters_write_their_fields() {
    let v = HStack::new()
        .padding(UiRect::all(Val::Px(8)))
        .width(Val::Percent(50))
        .height(Val::Px(40))
        .min_width(Val::Px(10))
        .max_width(Val::Px(500))
        .min_height(Val::Px(5))
        .max_height(Val::Vh(80));
    assert_eq!(v.node.padding, UiRect::all(Val::Px(8)));
    assert_eq!(v.node.width, Val::Percent(50));
    assert_eq!(v.node.height, Val::Px(40));
    assert_eq!(v.node.min_width, Val::Px(10));
    assert_eq!(v.node.max_width, Val::Px(500));
    assert_eq!(v.node.min_height, Val::Px(5));
    assert_eq!(v.node.max_height, Val::Vh(80));
    assert_eq!(v.node.justify_content, JustifyContent::Start);
    assert_eq!(v.name.text, "HStack");
}

#[test]
fn frame_writes_width_and_height_together() {
    let v = VStack::new().frame(Val::Px(200), Val::Px(100));
    assert_eq!(v.node.width, Val::Px(200));
    assert_eq!(v.node.height, Val::Px(100));
    assert_eq!(v.node.flex_direction, FlexDirection::Column);
}

#[test]
fn flex_factor_setters_write_their_fields() {
    let v = HStack::new().flex_grow(2).flex_shrink(3);
    assert_eq!(v.node.flex_grow, 2);
    assert_eq!(v.node.flex_shrink, 3);
}

#[test]
fn grid_placement_setters_write_their_fields() {
    let v = HStack::new()
        .grid_row(GridPlacement::start(2))
        .grid_column(GridPlacement::span(3));
    assert_eq!(v.node.grid_row, GridPlacement::start(2));
    assert_eq!(v.node.grid_column, GridPlacement::span(3));
}

#[test]
fn name_setter_replaces_the_tag_only() {
    let v = HStack::new().width(Val::Px(7)).name("toolbar".to_string());
    assert_eq!(v.name.text, "toolbar");
    assert_eq!(v.node.width, Val::Px(7));
}

#[test]
fn stack_setters_write_their_fields() {
    let v = HStack::new()
        .flex_direction(FlexDirection::RowReverse)
        .wrap(FlexWrap::Wrap)
        .justify_content(JustifyContent::SpaceEvenly)
        .align_items(AlignItems::Stretch)
        .row_gap(Val::Px(4))
        .column_gap(Val::Px(6));
    assert_eq!(v.node.flex_direction, FlexDirection::RowReverse);
    assert_eq!(v.node.flex_wrap, FlexWrap::Wrap);
    assert_eq!(v.node.justify_content, JustifyContent::SpaceEvenly);
    assert_eq!(v.node.align_items, AlignItems::Stretch);
    assert_eq!(v.node.row_gap, Val::Px(4));
    assert_eq!(v.node.column_gap, Val::Px(6));
}

#[test]
fn stack_constructors_override_one_knob() {
    let v = HStack::from_justify_content(JustifyContent::SpaceBetween);
    assert_eq!(v.node.justify_content, JustifyContent::SpaceBetween);
    assert_eq!(v.node.align_items, AlignItems::Center);
    assert_eq!(v.name.text, "HStack");

    let w = VStack::from_align_items(AlignItems::FlexEnd);
    assert_eq!(w.node.align_items, AlignItems::FlexEnd);
    assert_eq!(w.node.justify_content, JustifyContent::Start);
    assert_eq!(w.name.text, "VStack");
}

#[test]
fn grid_setters_write_their_fields() {
    let template = vec![RepeatedGridTrack {
        repetition: GridTrackRepetition::Count(3),
        tracks: vec![GridTrack::Fr(1)],
    }];
    let v = HGrid::new()
        .grid_auto_flow(GridAutoFlow::RowDense)
        .grid_auto_columns(vec![GridTrack::Px(40)])
        .grid_auto_rows(vec![GridTrack::Auto, GridTrack::MinContent])
        .grid_template_columns(template.clone())
        .grid_template_rows(template.clone())
        .row_gap(Val::Px(2))
        .column_gap(Val::Px(3));
    assert_eq!(v.node.grid_auto_flow, GridAutoFlow::RowDense);
    assert_eq!(v.node.grid_auto_columns, vec![GridTrack::Px(40)]);
    assert_eq!(v.node.grid_auto_rows, vec![GridTrack::Auto, GridTrack::MinContent]);
    assert_eq!(v.node.grid_template_columns, template);
    assert_eq!(v.node.grid_template_rows, template);
    assert_eq!(v.node.row_gap, Val::Px(2));
    assert_eq!(v.node.column_gap, Val::Px(3));
}

#[test]
fn grid_alignment_setters_write_their_fields() {
    let v = HGrid::new()
        .justify_content(JustifyContent::End)
        .align_items(AlignItems::Baseline);
    assert_eq!(v.node.justify_content, JustifyContent::End);
    assert_eq!(v.node.align_items, AlignItems::Baseline);
}

#[test]
fn position_setters_switch_to_absolute() {
    let v = HStack::new().top(Val::Px(12));
    assert_eq!(v.node.position_type, PositionType::Absolute);
    assert_eq!(v.node.top, Val::Px(12));

    let v = HStack::new().left(Val::Px(1)).right(Val::Px(2)).bottom(Val::Px(3));
    assert_eq!(v.node.position_type, PositionType::Absolute);
    assert_eq!(v.node.left, Val::Px(1));
    assert_eq!(v.node.right, Val::Px(2));
    assert_eq!(v.node.bottom, Val::Px(3));

    let v = SwoopText::new().position(Val::Px(30), Val::Px(60));
    assert_eq!(v.node.position_type, PositionType::Absolute);
    assert_eq!(v.node.left, Val::Px(30));
    assert_eq!(v.node.top, Val::Px(60));
}

#[test]
fn background_setters_write_their_fields() {
    let v = HStack::new().background_color(Rgba::new(10, 20, 30, 255));
    assert_eq!(v.background.color, Rgba::new(10, 20, 30, 255));
    assert_eq!(v.background.image, ImageNode::default());

    let v = v.background_image(ImageHandle { id: 7 });
    assert_eq!(v.background.image.image, ImageHandle { id: 7 });
    assert_eq!(v.background.image.image_mode, NodeImageMode::Auto);
    assert_eq!(v.background.color, Rgba::new(10, 20, 30, 255));

    let v = v.background_image_mode(NodeImageMode::Stretch);
    assert_eq!(v.background.image.image, ImageHandle { id: 7 });
    assert_eq!(v.background.image.image_mode, NodeImageMode::Stretch);
}

#[test]
fn border_setters_write_their_fields() {
    let v = HStack::new()
        .border(UiRect::axes(Val::Px(2), Val::Px(1)))
        .border_color(Rgba::black())
        .border_radius(BorderRadius::all(Val::Px(5)));
    assert_eq!(v.node.border, UiRect::axes(Val::Px(2), Val::Px(1)));
    assert_eq!(v.border.border_color, Rgba::black());
    assert_eq!(v.border.border_radius, BorderRadius::all(Val::Px(5)));
}

#[test]
fn shadow_replaces_and_add_shadow_appends() {
    let first = ShadowStyle::default();
    let second = ShadowStyle { color: Rgba::new(1, 2, 3, 4), ..ShadowStyle::default() };
    let v = HStack::new().shadow(vec![first.clone()]);
    assert_eq!(v.shadow.shadows, vec![first.clone()]);

    let v = v.add_shadow(second.clone());
    assert_eq!(v.shadow.shadows, vec![first, second]);
}

#[test]
fn text_setters_write_their_fields() {
    let v = TextButton::new()
        .text("Submit".to_string())
        .text_color(Rgba::white())
        .text_alignment(JustifyText::Right)
        .text_linebreak(LineBreak::WordBoundary)
        .font(FontHandle { id: 11 })
        .font_size(24)
        .line_height(LineHeight::Px(30))
        .font_smoothing(FontSmoothing::Off);
    assert_eq!(v.text.text.value, "Submit");
    assert_eq!(v.text.color, Rgba::white());
    assert_eq!(v.text.layout.justify, JustifyText::Right);
    assert_eq!(v.text.layout.linebreak, LineBreak::WordBoundary);
    assert_eq!(v.text.font.font, FontHandle { id: 11 });
    assert_eq!(v.text.font.font_size, 24);
    assert_eq!(v.text.font.line_height, LineHeight::Px(30));
    assert_eq!(v.text.font.font_smoothing, FontSmoothing::Off);
    assert_eq!(v.background.color, Rgba::white());
}

#[test]
fn text_shadow_setters_write_their_fields() {
    let v = SwoopText::new()
        .text_shadow_offset(Offset::new(2, -2))
        .text_shadow_color(Rgba::new(0, 0, 0, 128));
    assert_eq!(v.text_shadow.offset, Offset::new(2, -2));
    assert_eq!(v.text_shadow.color, Rgba::new(0, 0, 0, 128));
}

#[test]
fn a_long_chain_touches_only_what_it_names() {
    let v = TextButton::new()
        .name("ok button".to_string())
        .frame(Val::Px(120), Val::Px(32))
        .background_color(Rgba::new(50, 120, 200, 255))
        .border(UiRect::all(Val::Px(1)))
        .border_radius(BorderRadius::all(Val::Px(4)))
        .text("OK".to_string());
    assert_eq!(v.name.text, "ok button");
    assert_eq!(v.node.width, Val::Px(120));
    assert_eq!(v.node.height, Val::Px(32));
    assert_eq!(v.background.color, Rgba::new(50, 120, 200, 255));
    assert_eq!(v.node.border, UiRect::all(Val::Px(1)));
    assert_eq!(v.border.border_radius, BorderRadius::all(Val::Px(4)));
    assert_eq!(v.text.text.value, "OK");
    assert_eq!(v.node.justify_content, JustifyContent::Center);
    assert_eq!(v.text.color, Rgba::black());
    assert!(v.box_shadow.shadows.is_empty());
}
