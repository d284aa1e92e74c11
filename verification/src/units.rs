//! Plain-value measurement types shared by the layout and styling bundles.

use vstd::prelude::*;

verus! {

/// A length understood by the host engine's layout solver.
///
/// Lengths are carried as plain integers: `Px` holds logical pixels and the
/// relative variants hold whole percentage points of their basis. The host
/// engine converts them into its own floating-point lengths when a bundle is
/// handed over.
#[derive(Debug, Clone, Copy, PartialEq, Eq)]
pub enum Val {
    /// Let the layout solver pick the length.
    Auto,
    /// A length in logical pixels.
    Px(i32),
    /// A share of the parent's length, in percent.
    Percent(i32),
    /// A share of the viewport width, in percent.
    Vw(i32),
    /// A share of the viewport height, in percent.
    Vh(i32),
    /// A share of the viewport's smaller side, in percent.
    VMin(i32),
    /// A share of the viewport's larger side, in percent.
    VMax(i32),
}

impl Default for Val {
    /// A fresh length lets the layout solver decide.
    fn default() -> (r: Self)
        ensures
            r == Val::Auto,
    {
        Val::Auto
    }
}

/// Spacing around the four edges of a rectangle, as used for padding and
/// border widths.
#[derive(Debug, Clone, Copy, PartialEq, Eq)]
pub struct UiRect {
    /// Spacing along the left edge.
    pub left: Val,
    /// Spacing along the right edge.
    pub right: Val,
    /// Spacing along the top edge.
    pub top: Val,
    /// Spacing along the bottom edge.
    pub bottom: Val,
}

impl UiRect {
    /// Builds a rectangle from the four edge values.
    pub fn new(left: Val, right: Val, top: Val, bottom: Val) -> (r: Self)
        ensures
            r == (UiRect { left, right, top, bottom }),
    {
        UiRect { left, right, top, bottom }
    }

    /// Applies the same value to all four edges.
    pub fn all(value: Val) -> (r: Self)
        ensures
            r == (UiRect { left: value, right: value, top: value, bottom: value }),
    {
        UiRect { left: value, right: value, top: value, bottom: value }
    }

    /// Applies `horizontal` to the left and right edges and `vertical` to the
    /// top and bottom edges.
    pub fn axes(horizontal: Val, vertical: Val) -> (r: Self)
        ensures
            r == (UiRect {
                left: horizontal,
                right: horizontal,
                top: vertical,
                bottom: vertical,
            }),
    {
        UiRect { left: horizontal, right: horizontal, top: vertical, bottom: vertical }
    }

    /// A rectangle of zero pixels on every edge.
    pub fn zero() -> (r: Self)
        ensures
            r == spec_zero_rect(),
    {
        UiRect { left: Val::Px(0), right: Val::Px(0), top: Val::Px(0), bottom: Val::Px(0) }
    }
}

/// The rectangle with zero pixels on every edge: the value a fresh layout
/// node carries for its padding and border widths.
pub open spec fn spec_zero_rect() -> UiRect {
    UiRect { left: Val::Px(0), right: Val::Px(0), top: Val::Px(0), bottom: Val::Px(0) }
}

impl Default for UiRect {
    /// A fresh rectangle has zero pixels on every edge.
    fn default() -> (r: Self)
        ensures
            r == spec_zero_rect(),
    {
        UiRect::zero()
    }
}

/// A two-dimensional offset in logical pixels, as used by text shadows.
#[derive(Debug, Clone, Copy, PartialEq, Eq)]
pub struct Offset {
    /// Horizontal displacement, positive to the right.
    pub x: i32,
    /// Vertical displacement, positive downward.
    pub y: i32,
}

impl Offset {
    /// Builds an offset from its two components.
    pub fn new(x: i32, y: i32) -> (r: Self)
        ensures
            r == (Offset { x, y }),
    {
        Offset { x, y }
    }
}

impl Default for Offset {
    /// A fresh offset displaces nothing.
    fn default() -> (r: Self)
        ensures
            r == (Offset { x: 0, y: 0 }),
    {
        Offset { x: 0, y: 0 }
    }
}

} // verus!
