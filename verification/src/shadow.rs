//! Drop shadows behind containers and behind text.

use vstd::prelude::*;
use vstd::view::View as _;

use crate::{Name, View};
use crate::color::{Rgba, spec_black};
use crate::layout::Node;
use crate::units::{Offset, Val};

verus! {

/// One drop shadow behind a container.
#[derive(Debug, Clone, Copy, PartialEq, Eq)]
pub struct ShadowStyle {
    /// The shadow's color.
    pub color: Rgba,
    /// Horizontal displacement of the shadow.
    pub x_offset: Val,
    /// Vertical displacement of the shadow.
    pub y_offset: Val,
    /// How far the shadow spreads outward; negative values shrink it.
    pub spread_radius: Val,
    /// How blurred the shadow's edge is.
    pub blur_radius: Val,
}

/// The shadow style used when none is given: black, displaced by a fifth of
/// the node and blurred by a tenth.
pub open spec fn spec_default_shadow() -> ShadowStyle {
    ShadowStyle {
        color: spec_black(),
        x_offset: Val::Percent(20),
        y_offset: Val::Percent(20),
        spread_radius: Val::Px(0),
        blur_radius: Val::Percent(10),
    }
}

impl Default for ShadowStyle {
    /// The default shadow is black, displaced by a fifth of the node and
    /// blurred by a tenth.
    fn default() -> (r: Self)
        ensures
            r == spec_default_shadow(),
    {
        ShadowStyle {
            color: Rgba::black(),
            x_offset: Val::Percent(20),
            y_offset: Val::Percent(20),
            spread_radius: Val::Px(0),
            blur_radius: Val::Percent(10),
        }
    }
}

/// The list of drop shadows drawn behind a container, back to front.
#[derive(Debug, Clone, PartialEq, Eq)]
pub struct BoxShadow {
    /// The shadows, drawn in order from back to front.
    pub shadows: Vec<ShadowStyle>,
}

impl Default for BoxShadow {
    /// A fresh container casts no shadow.
    fn default() -> (r: Self)
        ensures
            r.shadows@.len() == 0,
    {
        BoxShadow { shadows: Vec::new() }
    }
}

/// The shadow drawn behind a text's glyphs.
#[derive(Debug, Clone, Copy, PartialEq, Eq)]
pub struct TextShadow {
    /// Displacement of the shadow in logical pixels; a zero offset hides it
    /// directly behind the text.
    pub offset: Offset,
    /// The color of the shadow.
    pub color: Rgba,
}

/// The text shadow used when none is given: three-quarters-opaque black,
/// displaced four pixels right and down.
pub open spec fn spec_default_text_shadow() -> TextShadow {
    TextShadow {
        offset: Offset { x: 4, y: 4 },
        color: Rgba { red: 0, green: 0, blue: 0, alpha: 191 },
    }
}

impl Default for TextShadow {
    /// The default text shadow is three-quarters-opaque black, displaced
    /// four pixels right and down.
    fn default() -> (r: Self)
        ensures
            r == spec_default_text_shadow(),
    {
        TextShadow {
            offset: Offset { x: 4, y: 4 },
            color: Rgba { red: 0, green: 0, blue: 0, alpha: 191 },
        }
    }
}

/// Chainable drop-shadow configuration for a view that owns a [`BoxShadow`]
/// list.
pub trait BoxShadowView: View {
    /// The view's drop-shadow list.
    spec fn box_shadow_of(self) -> BoxShadow;

    /// The view with its drop-shadow list replaced and everything else
    /// untouched.
    spec fn with_box_shadow(self, box_shadow: BoxShadow) -> Self;

    /// Replacing the drop-shadow list changes the drop-shadow list alone.
    proof fn lemma_with_box_shadow(self, box_shadow: BoxShadow)
        ensures
            self.with_box_shadow(box_shadow).box_shadow_of() == box_shadow,
            self.with_box_shadow(box_shadow).name_of() == self.name_of(),
            self.with_box_shadow(box_shadow).node_of() == self.node_of(),
    ;

    /// The drop-shadow list survives replacing the name tag or the layout
    /// node.
    proof fn lemma_box_shadow_preserved(self, name: Name, node: Node)
        ensures
            self.with_name(name).box_shadow_of() == self.box_shadow_of(),
            self.with_node(node).box_shadow_of() == self.box_shadow_of(),
    ;

    /// Gives mutable access to the drop-shadow list; the rest of the view
    /// keeps its value.
    fn box_shadow_node(&mut self) -> (box_shadow: &mut BoxShadow)
        ensures
            *box_shadow == old(self).box_shadow_of(),
            *final(self) == old(self).with_box_shadow(*final(box_shadow)),
    ;

    /// Replaces all existing drop shadows with the given list.
    fn shadow(self, shadows: Vec<ShadowStyle>) -> (r: Self)
        ensures
            r == self.with_box_shadow((BoxShadow { shadows: shadows })),
    {
        let mut s = self;
        let box_shadow = s.box_shadow_node();
        box_shadow.shadows = shadows;
        s
    }

    /// Appends one drop shadow behind the existing ones.
    fn add_shadow(self, shadow: ShadowStyle) -> (r: Self)
        ensures
            r.box_shadow_of().shadows@ == self.box_shadow_of().shadows@.push(shadow),
            r == self.with_box_shadow(r.box_shadow_of()),
    {
        let ghost v = self;
        let mut s = self;
        let box_shadow = s.box_shadow_node();
        box_shadow.shadows.push(shadow);
        proof {
            v.lemma_with_box_shadow(*box_shadow);
        }
        s
    }
}

/// Chainable text-shadow configuration for a view that owns a [`TextShadow`].
pub trait TextShadowView: View {
    /// The view's text shadow.
    spec fn text_shadow_of(self) -> TextShadow;

    /// The view with its text shadow replaced and everything else untouched.
    spec fn with_text_shadow(self, text_shadow: TextShadow) -> Self;

    /// Replacing the text shadow changes the text shadow alone.
    proof fn lemma_with_text_shadow(self, text_shadow: TextShadow)
        ensures
            self.with_text_shadow(text_shadow).text_shadow_of() == text_shadow,
            self.with_text_shadow(text_shadow).name_of() == self.name_of(),
            self.with_text_shadow(text_shadow).node_of() == self.node_of(),
    ;

    /// The text shadow survives replacing the name tag or the layout node.
    proof fn lemma_text_shadow_preserved(self, name: Name, node: Node)
        ensures
            self.with_name(name).text_shadow_of() == self.text_shadow_of(),
            self.with_node(node).text_shadow_of() == self.text_shadow_of(),
    ;

    /// Gives mutable access to the text shadow; the rest of the view keeps
    /// its value.
    fn text_shadow_node(&mut self) -> (text_shadow: &mut TextShadow)
        ensures
            *text_shadow == old(self).text_shadow_of(),
            *final(self) == old(self).with_text_shadow(*final(text_shadow)),
    ;

    /// Sets the displacement of the text shadow.
    fn text_shadow_offset(self, offset: Offset) -> (r: Self)
        ensures
            r == self.with_text_shadow(
                (TextShadow { offset: offset, ..self.text_shadow_of() }),
            ),
    {
        let mut s = self;
        let text_shadow = s.text_shadow_node();
        text_shadow.offset = offset;
        s
    }

    /// Sets the color of the text shadow.
    fn text_shadow_color(self, color: Rgba) -> (r: Self)
        ensures
            r == self.with_text_shadow(
                (TextShadow { color: color, ..self.text_shadow_of() }),
            ),
    {
        let mut s = self;
        let text_shadow = s.text_shadow_node();
        text_shadow.color = color;
        s
    }
}

} // verus!
