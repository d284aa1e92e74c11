//! A horizontal stack container that arranges its children in a row.

use vstd::prelude::*;
use vstd::view::View as _;
use vstd::string::StringExecFns;

use crate::{Name, View};
use crate::background::{BackgroundStyle, BackgroundView, spec_default_background};
use crate::border::{BorderStyle, BorderView, spec_default_border};
use crate::container::stack::StackView;
use crate::layout::{
    AlignItems, Display, FlexDirection, GridAutoFlow, JustifyContent, Node, is_initial_node,
};
use crate::position::PositionView;
use crate::shadow::{BoxShadow, BoxShadowView};

verus! {

/// A horizontal stack container: children flow in a row, left-aligned
/// along the row and centered across it, with border, background and
/// shadow styling.
#[derive(Debug, Clone, PartialEq, Eq)]
pub struct HStack {
    /// The tag that identifies the UI node.
    pub name: Name,
    /// The layout node controlling size, flow and spacing.
    pub node: Node,
    /// How the border is drawn.
    pub border: BorderStyle,
    /// How the background is drawn.
    pub background: BackgroundStyle,
    /// Drop shadows behind the container.
    pub shadow: BoxShadow,
}

impl Default for HStack {
    /// A fresh `HStack` is a flex row, packed at the start and centered
    /// across, with every style at its default.
    fn default() -> (r: Self)
        ensures
            r.rest_is_default(),
            <HStack as View>::is_initial_layout(
                r.node_of(),
                <HStack as View>::default_justify(),
                <HStack as View>::default_align(),
            ),
            r.name_of().text@ == <HStack as View>::default_tag(),
    {
        let mut node = Node::default();
        node.justify_content = JustifyContent::Start;
        node.align_items = AlignItems::Center;
        HStack {
            name: Name::new(String::from_str("HStack")),
            node,
            border: BorderStyle::default(),
            background: BackgroundStyle::default(),
            shadow: BoxShadow::default(),
        }
    }
}

impl View for HStack {
    open spec fn name_of(self) -> Name {
        self.name
    }

    open spec fn with_name(self, name: Name) -> Self {
        HStack { name, ..self }
    }

    open spec fn node_of(self) -> Node {
        self.node
    }

    open spec fn with_node(self, node: Node) -> Self {
        HStack { node, ..self }
    }

    open spec fn rest_is_default(self) -> bool {
        &&& self.border == spec_default_border()
        &&& self.background == spec_default_background()
        &&& self.shadow.shadows@.len() == 0
    }

    open spec fn default_tag() -> Seq<char> {
        "HStack"@
    }

    open spec fn default_justify() -> JustifyContent {
        JustifyContent::Start
    }

    open spec fn default_align() -> AlignItems {
        AlignItems::Center
    }

    open spec fn is_initial_layout(
        node: Node,
        justify: JustifyContent,
        align: AlignItems,
    ) -> bool {
        is_initial_node(node, Display::Flex, FlexDirection::Row, GridAutoFlow::Row, justify, align)
    }

    proof fn lemma_with_name(self, name: Name) {
        assert(self.with_name(name) == (HStack { name: name, ..self }));
    }

    proof fn lemma_with_node(self, node: Node) {
    }

    proof fn lemma_initial_justify_update(
        node: Node,
        justify0: JustifyContent,
        align: AlignItems,
        justify: JustifyContent,
    ) {
    }

    proof fn lemma_initial_align_update(
        node: Node,
        justify: JustifyContent,
        align0: AlignItems,
        align: AlignItems,
    ) {
    }

    fn new() -> (r: Self) {
        HStack::default()
    }

    fn name_node(&mut self) -> (name: &mut Name) {
        &mut self.name
    }

    fn node_node(&mut self) -> (node: &mut Node) {
        &mut self.node
    }
}

impl StackView for HStack {

}

impl BackgroundView for HStack {
    open spec fn background_of(self) -> BackgroundStyle {
        self.background
    }

    open spec fn with_background(self, background: BackgroundStyle) -> Self {
        HStack { background, ..self }
    }

    proof fn lemma_with_background(self, background: BackgroundStyle) {
    }

    proof fn lemma_background_preserved(self, name: Name, node: Node) {
    }

    fn background_node(&mut self) -> (background: &mut BackgroundStyle) {
        &mut self.background
    }
}

impl BorderView for HStack {
    open spec fn border_of(self) -> BorderStyle {
        self.border
    }

    open spec fn with_border(self, border: BorderStyle) -> Self {
        HStack { border, ..self }
    }

    proof fn lemma_with_border(self, border: BorderStyle) {
    }

    proof fn lemma_border_preserved(self, name: Name, node: Node) {
    }

    fn border_node(&mut self) -> (border: &mut BorderStyle) {
        &mut self.border
    }
}

impl BoxShadowView for HStack {
    open spec fn box_shadow_of(self) -> BoxShadow {
        self.shadow
    }

    open spec fn with_box_shadow(self, box_shadow: BoxShadow) -> Self {
        HStack { shadow: box_shadow, ..self }
    }

    proof fn lemma_with_box_shadow(self, box_shadow: BoxShadow) {
    }

    proof fn lemma_box_shadow_preserved(self, name: Name, node: Node) {
    }

    fn box_shadow_node(&mut self) -> (box_shadow: &mut BoxShadow) {
        proof {
            assert(self.box_shadow_of() == self.shadow);
        }
        &mut self.shadow
    }
}

impl PositionView for HStack {

}

} // verus!
