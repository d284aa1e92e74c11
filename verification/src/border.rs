//! How the border around a container is drawn.

use vstd::prelude::*;

use crate::{Name, View};
use crate::color::{Rgba, spec_clear};
use crate::layout::Node;
use crate::units::{UiRect, Val};

verus! {

/// The corner rounding of a border, one radius for each corner.
#[derive(Debug, Clone, Copy, PartialEq, Eq)]
pub struct BorderRadius {
    /// The radius of the top-left corner.
    pub top_left: Val,
    /// The radius of the top-right corner.
    pub top_right: Val,
    /// The radius of the bottom-left corner.
    pub bottom_left: Val,
    /// The radius of the bottom-right corner.
    pub bottom_right: Val,
}

/// Sharp corners: a radius of zero pixels everywhere.
pub open spec fn spec_sharp_corners() -> BorderRadius {
    BorderRadius {
        top_left: Val::Px(0),
        top_right: Val::Px(0),
        bottom_left: Val::Px(0),
        bottom_right: Val::Px(0),
    }
}

impl BorderRadius {
    /// Rounds all four corners with the same radius.
    pub fn all(radius: Val) -> (r: Self)
        ensures
            r == (BorderRadius {
                top_left: radius,
                top_right: radius,
                bottom_left: radius,
                bottom_right: radius,
            }),
    {
        BorderRadius {
            top_left: radius,
            top_right: radius,
            bottom_left: radius,
            bottom_right: radius,
        }
    }

    /// Sharp corners: a radius of zero pixels everywhere.
    pub fn zero() -> (r: Self)
        ensures
            r == spec_sharp_corners(),
    {
        BorderRadius {
            top_left: Val::Px(0),
            top_right: Val::Px(0),
            bottom_left: Val::Px(0),
            bottom_right: Val::Px(0),
        }
    }
}

impl Default for BorderRadius {
    /// A fresh border has sharp corners.
    fn default() -> (r: Self)
        ensures
            r == spec_sharp_corners(),
    {
        BorderRadius::zero()
    }
}

/// How the border around a container is drawn: its corner rounding and its
/// color. The border's width lives on the layout node.
#[derive(Debug, Clone, Copy, PartialEq, Eq)]
pub struct BorderStyle {
    /// The corner rounding of the border.
    pub border_radius: BorderRadius,
    /// The color of the border.
    pub border_color: Rgba,
}

/// The border of a fresh container: sharp corners and a fully transparent
/// color.
pub open spec fn spec_default_border() -> BorderStyle {
    BorderStyle { border_radius: spec_sharp_corners(), border_color: spec_clear() }
}

impl Default for BorderStyle {
    /// A fresh border has sharp corners and draws nothing.
    fn default() -> (r: Self)
        ensures
            r == spec_default_border(),
    {
        BorderStyle { border_radius: BorderRadius::zero(), border_color: Rgba::clear() }
    }
}

/// Chainable border configuration for a view that owns a [`BorderStyle`].
pub trait BorderView: View {
    /// The view's border style.
    spec fn border_of(self) -> BorderStyle;

    /// The view with its border style replaced and everything else
    /// untouched.
    spec fn with_border(self, border: BorderStyle) -> Self;

    /// Replacing the border style changes the border style alone.
    proof fn lemma_with_border(self, border: BorderStyle)
        ensures
            self.with_border(border).border_of() == border,
            self.with_border(border).name_of() == self.name_of(),
            self.with_border(border).node_of() == self.node_of(),
    ;

    /// The border style survives replacing the name tag or the layout node.
    proof fn lemma_border_preserved(self, name: Name, node: Node)
        ensures
            self.with_name(name).border_of() == self.border_of(),
            self.with_node(node).border_of() == self.border_of(),
    ;

    /// Gives mutable access to the border style; the rest of the view keeps
    /// its value.
    fn border_node(&mut self) -> (border: &mut BorderStyle)
        ensures
            *border == old(self).border_of(),
            *final(self) == old(self).with_border(*final(border)),
    ;

    /// Sets the border width on each edge, which lives on the layout node.
    fn border(self, border: UiRect) -> (r: Self)
        ensures
            r == self.with_node((Node { border: border, ..self.node_of() })),
    {
        let mut s = self;
        let node = s.node_node();
        node.border = border;
        s
    }

    /// Sets the border color.
    fn border_color(self, border_color: Rgba) -> (r: Self)
        ensures
            r == self.with_border(
                (BorderStyle { border_color: border_color, ..self.border_of() }),
            ),
    {
        let mut s = self;
        let border = s.border_node();
        border.border_color = border_color;
        s
    }

    /// Sets the corner rounding of the border.
    fn border_radius(self, border_radius: BorderRadius) -> (r: Self)
        ensures
            r == self.with_border(
                (BorderStyle { border_radius: border_radius, ..self.border_of() }),
            ),
    {
        let mut s = self;
        let border = s.border_node();
        border.border_radius = border_radius;
        s
    }
}

} // verus!
