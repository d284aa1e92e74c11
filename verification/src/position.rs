//! Absolute positioning of views against their parent's edges.

use vstd::prelude::*;

use crate::View;
use crate::layout::{Node, PositionType};
use crate::units::Val;

verus! {

/// Chainable absolute-positioning methods for views.
///
/// Each method switches the view into absolute positioning and records the
/// requested offset from the parent's edge.
pub trait PositionView: View {
    /// Offsets the view from the parent's top edge, positioning it
    /// absolutely.
    fn top(self, y: Val) -> (r: Self)
        ensures
            r == self.with_node(
                (Node { position_type: PositionType::Absolute, top: y, ..self.node_of() }),
            ),
    {
        let mut s = self;
        let node = s.node_node();
        node.position_type = PositionType::Absolute;
        node.top = y;
        s
    }

    /// Offsets the view from the parent's left edge, positioning it
    /// absolutely.
    fn left(self, x: Val) -> (r: Self)
        ensures
            r == self.with_node(
                (Node { position_type: PositionType::Absolute, left: x, ..self.node_of() }),
            ),
    {
        let mut s = self;
        let node = s.node_node();
        node.position_type = PositionType::Absolute;
        node.left = x;
        s
    }

    /// Offsets the view from the parent's right edge, positioning it
    /// absolutely.
    fn right(self, x: Val) -> (r: Self)
        ensures
            r == self.with_node(
                (Node { position_type: PositionType::Absolute, right: x, ..self.node_of() }),
            ),
    {
        let mut s = self;
        let node = s.node_node();
        node.position_type = PositionType::Absolute;
        node.right = x;
        s
    }

    /// Offsets the view from the parent's bottom edge, positioning it
    /// absolutely.
    fn bottom(self, y: Val) -> (r: Self)
        ensures
            r == self.with_node(
                (Node { position_type: PositionType::Absolute, bottom: y, ..self.node_of() }),
            ),
    {
        let mut s = self;
        let node = s.node_node();
        node.position_type = PositionType::Absolute;
        node.bottom = y;
        s
    }

    /// Offsets the view from the parent's left and top edges, positioning it
    /// absolutely.
    fn position(self, x: Val, y: Val) -> (r: Self)
        ensures
            r == self.with_node(
                (Node { position_type: PositionType::Absolute, left: x, top: y, ..self.node_of() }),
            ),
    {
        let mut s = self;
        let node = s.node_node();
        node.position_type = PositionType::Absolute;
        node.left = x;
        node.top = y;
        s
    }
}

} // verus!
