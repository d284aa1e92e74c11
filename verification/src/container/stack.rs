//! Flex-like stack containers and their shared configuration methods.

pub mod h_stack;
pub mod v_stack;

use vstd::prelude::*;
use vstd::view::View as _;

use crate::View;
use crate::layout::{AlignItems, FlexDirection, FlexWrap, JustifyContent, Node};
use crate::units::Val;

verus! {

/// Chainable layout configuration for stack-style containers, whose
/// children flow along a flex direction.
pub trait StackView: View {
    /// Creates a fresh stack with the given main-axis distribution.
    fn from_justify_content(justify_content: JustifyContent) -> (r: Self)
        ensures
            r.rest_is_default(),
            Self::is_initial_layout(r.node_of(), justify_content, Self::default_align()),
            r.name_of().text@ == Self::default_tag(),
    {
        let v = Self::new();
        proof {
            Self::lemma_initial_justify_update(
                v.node_of(),
                Self::default_justify(),
                Self::default_align(),
                justify_content,
            );
            v.lemma_with_node((Node { justify_content: justify_content, ..v.node_of() }));
        }
        v.justify_content(justify_content)
    }

    /// Creates a fresh stack with the given cross-axis alignment.
    fn from_align_items(align_items: AlignItems) -> (r: Self)
        ensures
            r.rest_is_default(),
            Self::is_initial_layout(r.node_of(), Self::default_justify(), align_items),
            r.name_of().text@ == Self::default_tag(),
    {
        let v = Self::new();
        proof {
            Self::lemma_initial_align_update(
                v.node_of(),
                Self::default_justify(),
                Self::default_align(),
                align_items,
            );
            v.lemma_with_node((Node { align_items: align_items, ..v.node_of() }));
        }
        v.align_items(align_items)
    }

    /// Sets the direction the children flow in.
    fn flex_direction(self, direction: FlexDirection) -> (r: Self)
        ensures
            r == self.with_node((Node { flex_direction: direction, ..self.node_of() })),
    {
        let mut s = self;
        let node = s.node_node();
        node.flex_direction = direction;
        s
    }

    /// Sets whether the children wrap onto further lines.
    fn wrap(self, wrap: FlexWrap) -> (r: Self)
        ensures
            r == self.with_node((Node { flex_wrap: wrap, ..self.node_of() })),
    {
        let mut s = self;
        let node = s.node_node();
        node.flex_wrap = wrap;
        s
    }

    /// Sets how free space along the main axis is distributed.
    fn justify_content(self, justify: JustifyContent) -> (r: Self)
        ensures
            r == self.with_node((Node { justify_content: justify, ..self.node_of() })),
    {
        let mut s = self;
        let node = s.node_node();
        node.justify_content = justify;
        s
    }

    /// Sets how the children are aligned along the cross axis.
    fn align_items(self, align_items: AlignItems) -> (r: Self)
        ensures
            r == self.with_node((Node { align_items: align_items, ..self.node_of() })),
    {
        let mut s = self;
        let node = s.node_node();
        node.align_items = align_items;
        s
    }

    /// Sets the vertical spacing between wrapped rows.
    fn row_gap(self, gap: Val) -> (r: Self)
        ensures
            r == self.with_node((Node { row_gap: gap, ..self.node_of() })),
    {
        let mut s = self;
        let node = s.node_node();
        node.row_gap = gap;
        s
    }

    /// Sets the horizontal spacing between columns.
    fn column_gap(self, gap: Val) -> (r: Self)
        ensures
            r == self.with_node((Node { column_gap: gap, ..self.node_of() })),
    {
        let mut s = self;
        let node = s.node_node();
        node.column_gap = gap;
        s
    }
}

} // verus!
