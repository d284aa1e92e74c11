//! A styled text view with border, background, shadow and positioning
//! support.

use vstd::prelude::*;
use vstd::view::View as _;
use vstd::string::StringExecFns;

use crate::{Name, View};
use crate::background::{BackgroundStyle, BackgroundView, spec_default_background};
use crate::border::{BorderStyle, BorderView, spec_default_border};
use crate::layout::{
    AlignItems, Display, FlexDirection, GridAutoFlow, JustifyContent, Node, is_initial_node,
};
use crate::position::PositionView;
use crate::shadow::{
    BoxShadow, BoxShadowView, TextShadow, TextShadowView, spec_default_text_shadow,
};

verus! {

/// A short alias for [`SwoopText`].
pub type SText = SwoopText;

/// A styled text view: a name tag, a layout node, border, background and
/// both kinds of shadow. The text content itself is supplied by the host
/// engine's text components on the same entity.
#[derive(Debug, Clone, PartialEq, Eq)]
pub struct SwoopText {
    /// The tag that identifies the UI entity.
    pub name: Name,
    /// Layout and sizing of the element.
    pub node: Node,
    /// How the border is drawn.
    pub border: BorderStyle,
    /// How the background is drawn.
    pub background: BackgroundStyle,
    /// Drop shadows behind the element.
    pub box_shadow: BoxShadow,
    /// The shadow behind the text's glyphs.
    pub text_shadow: TextShadow,
}

impl Default for SwoopText {
    /// A fresh `SwoopText` carries its own name tag and every style at its
    /// default.
    fn default() -> (r: Self)
        ensures
            r.rest_is_default(),
            <SwoopText as View>::is_initial_layout(
                r.node_of(),
                <SwoopText as View>::default_justify(),
                <SwoopText as View>::default_align(),
            ),
            r.name_of().text@ == <SwoopText as View>::default_tag(),
    {
        SwoopText {
            name: Name::new(String::from_str("SwoopText")),
            node: Node::default(),
            border: BorderStyle::default(),
            background: BackgroundStyle::default(),
            box_shadow: BoxShadow::default(),
            text_shadow: TextShadow::default(),
        }
    }
}

impl View for SwoopText {
    open spec fn name_of(self) -> Name {
        self.name
    }

    open spec fn with_name(self, name: Name) -> Self {
        SwoopText { name, ..self }
    }

    open spec fn node_of(self) -> Node {
        self.node
    }

    open spec fn with_node(self, node: Node) -> Self {
        SwoopText { node, ..self }
    }

    open spec fn rest_is_default(self) -> bool {
        &&& self.border == spec_default_border()
        &&& self.background == spec_default_background()
        &&& self.box_shadow.shadows@.len() == 0
        &&& self.text_shadow == spec_default_text_shadow()
    }

    open spec fn default_tag() -> Seq<char> {
        "SwoopText"@
    }

    open spec fn default_justify() -> JustifyContent {
        JustifyContent::Default
    }

    open spec fn default_align() -> AlignItems {
        AlignItems::Default
    }

    open spec fn is_initial_layout(
        node: Node,
        justify: JustifyContent,
        align: AlignItems,
    ) -> bool {
        is_initial_node(node, Display::Flex, FlexDirection::Row, GridAutoFlow::Row, justify, align)
    }

    proof fn lemma_with_name(self, name: Name) {
        assert(self.with_name(name) == (SwoopText { name: name, ..self }));
    }

    proof fn lemma_with_node(self, node: Node) {
    }

    proof fn lemma_initial_justify_update(
        node: Node,
        justify0: JustifyContent,
        align: AlignItems,
        justify: JustifyContent,
    ) {
    }

    proof fn lemma_initial_align_update(
        node: Node,
        justify: JustifyContent,
        align0: AlignItems,
        align: AlignItems,
    ) {
    }

    fn new() -> (r: Self) {
        SwoopText::default()
    }

    fn name_node(&mut self) -> (name: &mut Name) {
        &mut self.name
    }

    fn node_node(&mut self) -> (node: &mut Node) {
        &mut self.node
    }
}

impl BorderView for SwoopText {
    open spec fn border_of(self) -> BorderStyle {
        self.border
    }

    open spec fn with_border(self, border: BorderStyle) -> Self {
        SwoopText { border, ..self }
    }

    proof fn lemma_with_border(self, border: BorderStyle) {
    }

    proof fn lemma_border_preserved(self, name: Name, node: Node) {
    }

    fn border_node(&mut self) -> (border: &mut BorderStyle) {
        &mut self.border
    }
}

impl BackgroundView for SwoopText {
    open spec fn background_of(self) -> BackgroundStyle {
        self.background
    }

    open spec fn with_background(self, background: BackgroundStyle) -> Self {
        SwoopText { background, ..self }
    }

    proof fn lemma_with_background(self, background: BackgroundStyle) {
    }

    proof fn lemma_background_preserved(self, name: Name, node: Node) {
    }

    fn background_node(&mut self) -> (background: &mut BackgroundStyle) {
        &mut self.background
    }
}

impl BoxShadowView for SwoopText {
    open spec fn box_shadow_of(self) -> BoxShadow {
        self.box_shadow
    }

    open spec fn with_box_shadow(self, box_shadow: BoxShadow) -> Self {
        SwoopText { box_shadow, ..self }
    }

    proof fn lemma_with_box_shadow(self, box_shadow: BoxShadow) {
    }

    proof fn lemma_box_shadow_preserved(self, name: Name, node: Node) {
    }

    fn box_shadow_node(&mut self) -> (box_shadow: &mut BoxShadow) {
        proof {
            assert(self.box_shadow_of() == self.box_shadow);
        }
        &mut self.box_shadow
    }
}

impl TextShadowView for SwoopText {
    open spec fn text_shadow_of(self) -> TextShadow {
        self.text_shadow
    }

    open spec fn with_text_shadow(self, text_shadow: TextShadow) -> Self {
        SwoopText { text_shadow, ..self }
    }

    proof fn lemma_with_text_shadow(self, text_shadow: TextShadow) {
    }

    proof fn lemma_text_shadow_preserved(self, name: Name, node: Node) {
    }

    fn text_shadow_node(&mut self) -> (text_shadow: &mut TextShadow) {
        &mut self.text_shadow
    }
}

impl PositionView for SwoopText {

}

} // verus!
