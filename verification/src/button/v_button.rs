//! A button whose content is stacked top to bottom.

use vstd::prelude::*;
use vstd::view::View as _;
use vstd::string::StringExecFns;

use crate::{Name, View};
use crate::background::{BackgroundStyle, BackgroundView, spec_button_background};
use crate::border::{BorderStyle, BorderView, spec_default_border};
use crate::button::Button;
use crate::container::stack::StackView;
use crate::layout::{
    AlignItems, Display, FlexDirection, GridAutoFlow, JustifyContent, Node, is_initial_node,
};
use crate::position::PositionView;
use crate::shadow::{BoxShadow, BoxShadowView};

verus! {

/// A pressable button with vertically stacked content, centered both
/// ways, on a white background, with border and shadow styling.
#[derive(Debug, Clone, PartialEq, Eq)]
pub struct VButton {
    /// The tag that identifies the UI node.
    pub name: Name,
    /// The layout node controlling size, flow and spacing.
    pub node: Node,
    /// The marker that makes the host engine treat the entity as a button.
    pub button: Button,
    /// How the border is drawn.
    pub border: BorderStyle,
    /// How the background is drawn.
    pub background: BackgroundStyle,
    /// Drop shadows behind the button.
    pub shadow: BoxShadow,
}

impl Default for VButton {
    /// A fresh `VButton` is a flex column centered both ways, on a white
    /// background, with every other style at its default.
    fn default() -> (r: Self)
        ensures
            r.rest_is_default(),
            <VButton as View>::is_initial_layout(
                r.node_of(),
                <VButton as View>::default_justify(),
                <VButton as View>::default_align(),
            ),
            r.name_of().text@ == <VButton as View>::default_tag(),
    {
        let mut node = Node::default();
        node.flex_direction = FlexDirection::Column;
        node.justify_content = JustifyContent::Center;
        node.align_items = AlignItems::Center;
        VButton {
            name: Name::new(String::from_str("VButton")),
            node,
            button: Button,
            border: BorderStyle::default(),
            background: BackgroundStyle::button(),
            shadow: BoxShadow::default(),
        }
    }
}

impl View for VButton {
    open spec fn name_of(self) -> Name {
        self.name
    }

    open spec fn with_name(self, name: Name) -> Self {
        VButton { name, ..self }
    }

    open spec fn node_of(self) -> Node {
        self.node
    }

    open spec fn with_node(self, node: Node) -> Self {
        VButton { node, ..self }
    }

    open spec fn rest_is_default(self) -> bool {
        &&& self.border == spec_default_border()
        &&& self.background == spec_button_background()
        &&& self.shadow.shadows@.len() == 0
    }

    open spec fn default_tag() -> Seq<char> {
        "VButton"@
    }

    open spec fn default_justify() -> JustifyContent {
        JustifyContent::Center
    }

    open spec fn default_align() -> AlignItems {
        AlignItems::Center
    }

    open spec fn is_initial_layout(
        node: Node,
        justify: JustifyContent,
        align: AlignItems,
    ) -> bool {
        is_initial_node(node, Display::Flex, FlexDirection::Column, GridAutoFlow::Row, justify, align)
    }

    proof fn lemma_with_name(self, name: Name) {
        assert(self.with_name(name) == (VButton { name: name, ..self }));
    }

    proof fn lemma_with_node(self, node: Node) {
    }

    proof fn lemma_initial_justify_update(
        node: Node,
        justify0: JustifyContent,
        align: AlignItems,
        justify: JustifyContent,
    ) {
    }

    proof fn lemma_initial_align_update(
        node: Node,
        justify: JustifyContent,
        align0: AlignItems,
        align: AlignItems,
    ) {
    }

    fn new() -> (r: Self) {
        VButton::default()
    }

    fn name_node(&mut self) -> (name: &mut Name) {
        &mut self.name
    }

    fn node_node(&mut self) -> (node: &mut Node) {
        &mut self.node
    }
}

impl StackView for VButton {

}

impl BackgroundView for VButton {
    open spec fn background_of(self) -> BackgroundStyle {
        self.background
    }

    open spec fn with_background(self, background: BackgroundStyle) -> Self {
        VButton { background, ..self }
    }

    proof fn lemma_with_background(self, background: BackgroundStyle) {
    }

    proof fn lemma_background_preserved(self, name: Name, node: Node) {
    }

    fn background_node(&mut self) -> (background: &mut BackgroundStyle) {
        &mut self.background
    }
}

impl BorderView for VButton {
    open spec fn border_of(self) -> BorderStyle {
        self.border
    }

    open spec fn with_border(self, border: BorderStyle) -> Self {
        VButton { border, ..self }
    }

    proof fn lemma_with_border(self, border: BorderStyle) {
    }

    proof fn lemma_border_preserved(self, name: Name, node: Node) {
    }

    fn border_node(&mut self) -> (border: &mut BorderStyle) {
        &mut self.border
    }
}

impl BoxShadowView for VButton {
    open spec fn box_shadow_of(self) -> BoxShadow {
        self.shadow
    }

    open spec fn with_box_shadow(self, box_shadow: BoxShadow) -> Self {
        VButton { shadow: box_shadow, ..self }
    }

    proof fn lemma_with_box_shadow(self, box_shadow: BoxShadow) {
    }

    proof fn lemma_box_shadow_preserved(self, name: Name, node: Node) {
    }

    fn box_shadow_node(&mut self) -> (box_shadow: &mut BoxShadow) {
        proof {
            assert(self.box_shadow_of() == self.shadow);
        }
        &mut self.shadow
    }
}

impl PositionView for VButton {

}

} // verus!
