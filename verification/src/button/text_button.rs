//! A button with a styled text label, packed as a parent entity and a text
//! child.

use vstd::prelude::*;
use vstd::view::View as _;
use vstd::string::StringExecFns;

use crate::{Name, View, ViewToBundle};
use crate::background::{BackgroundStyle, BackgroundView, spec_button_background};
use crate::border::{BorderStyle, BorderView, spec_default_border};
use crate::button::Button;
use crate::color::spec_clear;
use crate::container::stack::StackView;
use crate::layout::{
    AlignItems, Display, FlexDirection, GridAutoFlow, JustifyContent, Node, is_initial_node,
};
use crate::position::PositionView;
use crate::shadow::{BoxShadow, BoxShadowView, TextShadow, TextShadowView};
use crate::text::{TextStyle, TextView, is_default_text_style};
use crate::units::Offset;

verus! {

/// The text shadow a fresh `TextButton` carries: hidden directly behind the
/// glyphs and fully transparent, so nothing is drawn until it is styled.
pub open spec fn spec_unset_text_shadow() -> TextShadow {
    TextShadow { offset: Offset { x: 0, y: 0 }, color: spec_clear() }
}

/// A pressable button with a styled text label, centered both ways on a
/// white background, with border and shadow styling for the button and the
/// label alike.
#[derive(Debug, Clone, PartialEq, Eq)]
pub struct TextButton {
    /// The tag that identifies the UI node.
    pub name: Name,
    /// The layout node controlling size, flow and spacing.
    pub node: Node,
    /// The marker that makes the host engine treat the entity as a button.
    pub button: Button,
    /// How the border is drawn.
    pub border: BorderStyle,
    /// How the background is drawn.
    pub background: BackgroundStyle,
    /// Drop shadows behind the button.
    pub box_shadow: BoxShadow,
    /// The label's content, font, color and paragraph layout.
    pub text: TextStyle,
    /// The shadow behind the label's glyphs.
    pub text_shadow: TextShadow,
}

impl Default for TextButton {
    /// A fresh `TextButton` is a flex row centered both ways, on a white
    /// background, with a default label style and no visible shadows.
    fn default() -> (r: Self)
        ensures
            r.rest_is_default(),
            <TextButton as View>::is_initial_layout(
                r.node_of(),
                <TextButton as View>::default_justify(),
                <TextButton as View>::default_align(),
            ),
            r.name_of().text@ == <TextButton as View>::default_tag(),
    {
        let mut node = Node::default();
        node.justify_content = JustifyContent::Center;
        node.align_items = AlignItems::Center;
        TextButton {
            name: Name::new(String::from_str("TextButton")),
            node,
            button: Button,
            border: BorderStyle::default(),
            background: BackgroundStyle::button(),
            box_shadow: BoxShadow::default(),
            text: TextStyle::button(),
            text_shadow: TextShadow {
                offset: Offset { x: 0, y: 0 },
                color: crate::color::Rgba::clear(),
            },
        }
    }
}

/// The components a packed [`TextButton`] places on the label's own child
/// entity.
#[derive(Debug, Clone, PartialEq, Eq)]
pub struct TextButtonContent {
    /// The label's content, font, color and paragraph layout.
    pub text: TextStyle,
    /// The shadow behind the label's glyphs.
    pub text_shadow: TextShadow,
}

/// The component set a packed [`TextButton`] hands to the host engine: the
/// button's own components, and the label's components for a child entity.
#[derive(Debug, Clone, PartialEq, Eq)]
pub struct TextButtonBundle {
    /// The tag that identifies the UI node.
    pub name: Name,
    /// The layout node controlling size, flow and spacing.
    pub node: Node,
    /// The marker that makes the host engine treat the entity as a button.
    pub button: Button,
    /// How the border is drawn.
    pub border: BorderStyle,
    /// How the background is drawn.
    pub background: BackgroundStyle,
    /// Drop shadows behind the button.
    pub box_shadow: BoxShadow,
    /// The label's components, spawned on a child entity.
    pub content: TextButtonContent,
}

impl View for TextButton {
    open spec fn name_of(self) -> Name {
        self.name
    }

    open spec fn with_name(self, name: Name) -> Self {
        TextButton { name, ..self }
    }

    open spec fn node_of(self) -> Node {
        self.node
    }

    open spec fn with_node(self, node: Node) -> Self {
        TextButton { node, ..self }
    }

    open spec fn rest_is_default(self) -> bool {
        &&& self.border == spec_default_border()
        &&& self.background == spec_button_background()
        &&& self.box_shadow.shadows@.len() == 0
        &&& is_default_text_style(self.text)
        &&& self.text_shadow == spec_unset_text_shadow()
    }

    open spec fn default_tag() -> Seq<char> {
        "TextButton"@
    }

    open spec fn default_justify() -> JustifyContent {
        JustifyContent::Center
    }

    open spec fn default_align() -> AlignItems {
        AlignItems::Center
    }

    open spec fn is_initial_layout(
        node: Node,
        justify: JustifyContent,
        align: AlignItems,
    ) -> bool {
        is_initial_node(node, Display::Flex, FlexDirection::Row, GridAutoFlow::Row, justify, align)
    }

    proof fn lemma_with_name(self, name: Name) {
        assert(self.with_name(name) == (TextButton { name: name, ..self }));
    }

    proof fn lemma_with_node(self, node: Node) {
    }

    proof fn lemma_initial_justify_update(
        node: Node,
        justify0: JustifyContent,
        align: AlignItems,
        justify: JustifyContent,
    ) {
    }

    proof fn lemma_initial_align_update(
        node: Node,
        justify: JustifyContent,
        align0: AlignItems,
        align: AlignItems,
    ) {
    }

    fn new() -> (r: Self) {
        TextButton::default()
    }

    fn name_node(&mut self) -> (name: &mut Name) {
        &mut self.name
    }

    fn node_node(&mut self) -> (node: &mut Node) {
        &mut self.node
    }
}

impl ViewToBundle for TextButton {
    type Bundle = TextButtonBundle;

    open spec fn pack_spec(self) -> TextButtonBundle {
        TextButtonBundle {
            name: self.name,
            node: self.node,
            button: self.button,
            border: self.border,
            background: self.background,
            box_shadow: self.box_shadow,
            content: TextButtonContent { text: self.text, text_shadow: self.text_shadow },
        }
    }

    fn pack(self) -> (r: TextButtonBundle) {
        TextButtonBundle {
            name: self.name,
            node: self.node,
            button: self.button,
            border: self.border,
            background: self.background,
            box_shadow: self.box_shadow,
            content: TextButtonContent { text: self.text, text_shadow: self.text_shadow },
        }
    }
}

impl StackView for TextButton {

}

impl BackgroundView for TextButton {
    open spec fn background_of(self) -> BackgroundStyle {
        self.background
    }

    open spec fn with_background(self, background: BackgroundStyle) -> Self {
        TextButton { background, ..self }
    }

    proof fn lemma_with_background(self, background: BackgroundStyle) {
    }

    proof fn lemma_background_preserved(self, name: Name, node: Node) {
    }

    fn background_node(&mut self) -> (background: &mut BackgroundStyle) {
        &mut self.background
    }
}

impl BorderView for TextButton {
    open spec fn border_of(self) -> BorderStyle {
        self.border
    }

    open spec fn with_border(self, border: BorderStyle) -> Self {
        TextButton { border, ..self }
    }

    proof fn lemma_with_border(self, border: BorderStyle) {
    }

    proof fn lemma_border_preserved(self, name: Name, node: Node) {
    }

    fn border_node(&mut self) -> (border: &mut BorderStyle) {
        &mut self.border
    }
}

impl BoxShadowView for TextButton {
    open spec fn box_shadow_of(self) -> BoxShadow {
        self.box_shadow
    }

    open spec fn with_box_shadow(self, box_shadow: BoxShadow) -> Self {
        TextButton { box_shadow, ..self }
    }

    proof fn lemma_with_box_shadow(self, box_shadow: BoxShadow) {
    }

    proof fn lemma_box_shadow_preserved(self, name: Name, node: Node) {
    }

    fn box_shadow_node(&mut self) -> (box_shadow: &mut BoxShadow) {
        proof {
            assert(self.box_shadow_of() == self.box_shadow);
        }
        &mut self.box_shadow
    }
}

impl TextView for TextButton {
    open spec fn text_style_of(self) -> TextStyle {
        self.text
    }

    open spec fn with_text_style(self, text_style: TextStyle) -> Self {
        TextButton { text: text_style, ..self }
    }

    proof fn lemma_with_text_style(self, text_style: TextStyle) {
        assert(self.with_text_style(text_style) == (TextButton { text: text_style, ..self }));
    }

    proof fn lemma_text_style_preserved(self, name: Name, node: Node) {
    }

    fn text_node(&mut self) -> (text_style: &mut TextStyle) {
        proof {
            assert(self.text_style_of() == self.text);
        }
        &mut self.text
    }
}

impl TextShadowView for TextButton {
    open spec fn text_shadow_of(self) -> TextShadow {
        self.text_shadow
    }

    open spec fn with_text_shadow(self, text_shadow: TextShadow) -> Self {
        TextButton { text_shadow, ..self }
    }

    proof fn lemma_with_text_shadow(self, text_shadow: TextShadow) {
    }

    proof fn lemma_text_shadow_preserved(self, name: Name, node: Node) {
    }

    fn text_shadow_node(&mut self) -> (text_shadow: &mut TextShadow) {
        &mut self.text_shadow
    }
}

impl PositionView for TextButton {

}

} // verus!
