//! A grid container whose items are placed row by row.

use vstd::prelude::*;
use vstd::view::View as _;
use vstd::string::StringExecFns;

use crate::{Name, View};
use crate::background::{BackgroundStyle, BackgroundView, spec_default_background};
use crate::border::{BorderStyle, BorderView, spec_default_border};
use crate::container::grid::GridView;
use crate::layout::{
    AlignItems, Display, FlexDirection, GridAutoFlow, JustifyContent, Node, is_initial_node,
};
use crate::position::PositionView;
use crate::shadow::{BoxShadow, BoxShadowView};

verus! {

/// A grid container that places its items row-wise, packed at the start
/// and centered across, with border, background and shadow styling.
#[derive(Debug, Clone, PartialEq, Eq)]
pub struct VGrid {
    /// The tag that identifies the UI node.
    pub name: Name,
    /// The layout node controlling size, flow and spacing.
    pub node: Node,
    /// How the border is drawn.
    pub border: BorderStyle,
    /// How the background is drawn.
    pub background: BackgroundStyle,
    /// Drop shadows behind the container.
    pub shadow: BoxShadow,
}

impl Default for VGrid {
    /// A fresh `VGrid` is a grid with row-wise placement, packed at the
    /// start and centered across, with every style at its default.
    fn default() -> (r: Self)
        ensures
            r.rest_is_default(),
            <VGrid as View>::is_initial_layout(
                r.node_of(),
                <VGrid as View>::default_justify(),
                <VGrid as View>::default_align(),
            ),
            r.name_of().text@ == <VGrid as View>::default_tag(),
    {
        let mut node = Node::default();
        node.display = Display::Grid;
        node.justify_content = JustifyContent::Start;
        node.align_items = AlignItems::Center;
        VGrid {
            name: Name::new(String::from_str("VGrid")),
            node,
            border: BorderStyle::default(),
            background: BackgroundStyle::default(),
            shadow: BoxShadow::default(),
        }
    }
}

impl View for VGrid {
    open spec fn name_of(self) -> Name {
        self.name
    }

    open spec fn with_name(self, name: Name) -> Self {
        VGrid { name, ..self }
    }

    open spec fn node_of(self) -> Node {
        self.node
    }

    open spec fn with_node(self, node: Node) -> Self {
        VGrid { node, ..self }
    }

    open spec fn rest_is_default(self) -> bool {
        &&& self.border == spec_default_border()
        &&& self.background == spec_default_background()
        &&& self.shadow.shadows@.len() == 0
    }

    open spec fn default_tag() -> Seq<char> {
        "VGrid"@
    }

    open spec fn default_justify() -> JustifyContent {
        JustifyContent::Start
    }

    open spec fn default_align() -> AlignItems {
        AlignItems::Center
    }

    open spec fn is_initial_layout(
        node: Node,
        justify: JustifyContent,
        align: AlignItems,
    ) -> bool {
        is_initial_node(node, Display::Grid, FlexDirection::Row, GridAutoFlow::Row, justify, align)
    }

    proof fn lemma_with_name(self, name: Name) {
        assert(self.with_name(name) == (VGrid { name: name, ..self }));
    }

    proof fn lemma_with_node(self, node: Node) {
    }

    proof fn lemma_initial_justify_update(
        node: Node,
        justify0: JustifyContent,
        align: AlignItems,
        justify: JustifyContent,
    ) {
    }

    proof fn lemma_initial_align_update(
        node: Node,
        justify: JustifyContent,
        align0: AlignItems,
        align: AlignItems,
    ) {
    }

    fn new() -> (r: Self) {
        VGrid::default()
    }

    fn name_node(&mut self) -> (name: &mut Name) {
        &mut self.name
    }

    fn node_node(&mut self) -> (node: &mut Node) {
        &mut self.node
    }
}

impl GridView for VGrid {

}

impl BackgroundView for VGrid {
    open spec fn background_of(self) -> BackgroundStyle {
        self.background
    }

    open spec fn with_background(self, background: BackgroundStyle) -> Self {
        VGrid { background, ..self }
    }

    proof fn lemma_with_background(self, background: BackgroundStyle) {
    }

    proof fn lemma_background_preserved(self, name: Name, node: Node) {
    }

    fn background_node(&mut self) -> (background: &mut BackgroundStyle) {
        &mut self.background
    }
}

impl BorderView for VGrid {
    open spec fn border_of(self) -> BorderStyle {
        self.border
    }

    open spec fn with_border(self, border: BorderStyle) -> Self {
        VGrid { border, ..self }
    }

    proof fn lemma_with_border(self, border: BorderStyle) {
    }

    proof fn lemma_border_preserved(self, name: Name, node: Node) {
    }

    fn border_node(&mut self) -> (border: &mut BorderStyle) {
        &mut self.border
    }
}

impl BoxShadowView for VGrid {
    open spec fn box_shadow_of(self) -> BoxShadow {
        self.shadow
    }

    open spec fn with_box_shadow(self, box_shadow: BoxShadow) -> Self {
        VGrid { shadow: box_shadow, ..self }
    }

    proof fn lemma_with_box_shadow(self, box_shadow: BoxShadow) {
    }

    proof fn lemma_box_shadow_preserved(self, name: Name, node: Node) {
    }

    fn box_shadow_node(&mut self) -> (box_shadow: &mut BoxShadow) {
        proof {
            assert(self.box_shadow_of() == self.shadow);
        }
        &mut self.shadow
    }
}

impl PositionView for VGrid {

}

} // verus!
