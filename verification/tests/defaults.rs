//! Every view type starts from the documented default configuration.

use swoop_ui::View;
use swoop_ui::button::h_button::HButton;
use swoop_ui::button::text_button::TextButton;
use swoop_ui::button::v_button::VButton;
use swoop_ui::color::Rgba;
use swoop_ui::container::grid::h_grid::HGrid;
use swoop_ui::container::grid::v_grid::VGrid;
use swoop_ui::container::stack::h_stack::HStack;
use swoop_ui::container::stack::v_stack::VStack;
use swoop_ui::layout::AlignItems;
use swoop_ui::layout::Display;
use swoop_ui::layout::FlexDirection;
use swoop_ui::layout::FlexWrap;
use swoop_ui::layout::GridAutoFlow;
use swoop_ui::layout::GridPlacement;
use swoop_ui::layout::JustifyContent;
use swoop_ui::layout::PositionType;
use swoop_ui::text::FontSmoothing;
use swoop_ui::text::JustifyText;
use swoop_ui::text::LineBreak;
use swoop_ui::text::LineHeight;
use swoop_ui::text::swoop_text::SwoopText;
use swoop_ui::units::Val;

#[test]
fn h_stack_default_is_a_start_packed_row() {
    let v = HStack::default();
    assert_eq!(v.name.text, "HStack");
    assert_eq!(v.node.display, Display::Flex);
    assert_eq!(v.node.flex_direction, FlexDirection::Row);
    assert_eq!(v.node.justify_content, JustifyContent::Start);
    assert_eq!(v.node.align_items, AlignItems::Center);
    assert_eq!(v.node.column_gap, Val::Px(0));
    assert_eq!(v.node.row_gap, Val::Px(0));
    assert_eq!(v.node.width, Val::Auto);
    assert_eq!(v.node.flex_wrap, FlexWrap::NoWrap);
    assert_eq!(v.node.position_type, PositionType::Relative);
    assert_eq!(v.background.color, Rgba::new(0, 0, 0, 0));
    assert_eq!(v.border.border_color, Rgba::new(0, 0, 0, 0));
    assert!(v.shadow.shadows.is_empty());
}

#[test]
fn v_stack_default_is_a_start_packed_column() {
    let v = VStack::default();
    assert_eq!(v.name.text, "VStack");
    assert_eq!(v.node.display, Display::Flex);
    assert_eq!(v.node.flex_direction, FlexDirection::Column);
    assert_eq!(v.node.justify_content, JustifyContent::Start);
    assert_eq!(v.node.align_items, AlignItems::Center);
}

#[test]
fn h_grid_default_places_items_column_wise() {
    let v = HGrid::default();
    assert_eq!(v.name.text, "HGrid");
    assert_eq!(v.node.display, Display::Grid);
    assert_eq!(v.node.grid_auto_flow, GridAutoFlow::Column);
    assert_eq!(v.node.justify_content, JustifyContent::Start);
    assert_eq!(v.node.align_items, AlignItems::Center);
    assert!(v.node.grid_template_rows.is_empty());
    assert!(v.node.grid_template_columns.is_empty());
    assert_eq!(v.node.grid_row, GridPlacement::auto());
}

#[test]
fn v_grid_default_places_items_row_wise() {
    let v = VGrid::default();
    assert_eq!(v.name.text, "VGrid");
    assert_eq!(v.node.display, Display::Grid);
    assert_eq!(v.node.grid_auto_flow, GridAutoFlow::Row);
    assert_eq!(v.node.justify_content, JustifyContent::Start);
    assert_eq!(v.node.align_items, AlignItems::Center);
}

#[test]
fn h_button_default_is_centered_on_white() {
    let v = HButton::default();
    assert_eq!(v.name.text, "HButton");
    assert_eq!(v.node.display, Display::Flex);
    assert_eq!(v.node.flex_direction, FlexDirection::Row);
    assert_eq!(v.node.justify_content, JustifyContent::Center);
    assert_eq!(v.node.align_items, AlignItems::Center);
    assert_eq!(v.background.color, Rgba::white());
    assert_eq!(v.border.border_color, Rgba::new(0, 0, 0, 0));
    assert!(v.shadow.shadows.is_empty());
}

#[test]
fn v_button_default_is_a_centered_column() {
    let v = VButton::default();
    assert_eq!(v.name.text, "VButton");
    assert_eq!(v.node.flex_direction, FlexDirection::Column);
    assert_eq!(v.node.justify_content, JustifyContent::Center);
    assert_eq!(v.node.align_items, AlignItems::Center);
    assert_eq!(v.background.color, Rgba::white());
}

#[test]
fn text_button_default_has_a_plain_centered_label() {
    let v = TextButton::default();
    assert_eq!(v.name.text, "TextButton");
    assert_eq!(v.node.justify_content, JustifyContent::Center);
    assert_eq!(v.background.color, Rgba::white());
    assert_eq!(v.text.layout.justify, JustifyText::Center);
    assert_eq!(v.text.layout.linebreak, LineBreak::NoWrap);
    assert_eq!(v.text.text.value, "");
    assert_eq!(v.text.color, Rgba::black());
    assert_eq!(v.text.font.font_size, 16);
    assert_eq!(v.text.font.line_height, LineHeight::RelativeToFont(120));
    assert_eq!(v.text.font.font_smoothing, FontSmoothing::AntiAliased);
    assert_eq!(v.text_shadow.offset.x, 0);
    assert_eq!(v.text_shadow.offset.y, 0);
    assert_eq!(v.text_shadow.color, Rgba::new(0, 0, 0, 0));
}

#[test]
fn swoop_text_default_keeps_the_plain_node() {
    let v = SwoopText::default();
    assert_eq!(v.name.text, "SwoopText");
    assert_eq!(v.node.display, Display::Flex);
    assert_eq!(v.node.justify_content, JustifyContent::Default);
    assert_eq!(v.node.align_items, AlignItems::Default);
    assert_eq!(v.background.color, Rgba::new(0, 0, 0, 0));
    assert_eq!(v.text_shadow.offset.x, 4);
    assert_eq!(v.text_shadow.offset.y, 4);
    assert_eq!(v.text_shadow.color, Rgba::new(0, 0, 0, 191));
}

#[test]
fn new_matches_default() {
    assert_eq!(HStack::new(), HStack::default());
    assert_eq!(VStack::new(), VStack::default());
    assert_eq!(HGrid::new(), HGrid::default());
    assert_eq!(VGrid::new(), VGrid::default());
    assert_eq!(HButton::new(), HButton::default());
    assert_eq!(VButton::new(), VButton::default());
    assert_eq!(TextButton::new(), TextButton::default());
    assert_eq!(SwoopText::new(), SwoopText::default());
}

#[test]
fn from_name_keeps_defaults_but_the_tag() {
    let v = HStack::from_name("menu bar".to_string());
    assert_eq!(v.name.text, "menu bar");
    assert_eq!(v.node, HStack::default().node);
    assert_eq!(v.background, HStack::default().background);
}
