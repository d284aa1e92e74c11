//! How a container's background is drawn: a fill color under an optional
//! image.

use vstd::prelude::*;

use crate::{Name, View};
use crate::assets::ImageHandle;
use crate::color::{Rgba, spec_clear, spec_white};
use crate::layout::Node;

verus! {

/// How a background image is fitted to its node.
#[derive(Debug, Clone, Copy, PartialEq, Eq)]
pub enum NodeImageMode {
    /// Size the image automatically from its source size, under the layout
    /// constraints.
    Auto,
    /// Stretch the image to the node's size, ignoring its proportions.
    Stretch,
    /// Repeat the image instead of stretching it further.
    Tiled {
        /// Whether the image repeats horizontally.
        tile_x: bool,
        /// Whether the image repeats vertically.
        tile_y: bool,
        /// The ratio of drawn size to source size above which the image
        /// repeats, in hundredths.
        stretch_value: i32,
    },
}

/// A background image together with the way it is fitted.
#[derive(Debug, Clone, Copy, PartialEq, Eq)]
pub struct ImageNode {
    /// The image asset to draw.
    pub image: ImageHandle,
    /// How the image is fitted to the node.
    pub image_mode: NodeImageMode,
}

/// The image of a fresh background: the host engine's default image, fitted
/// automatically.
pub open spec fn spec_default_image() -> ImageNode {
    ImageNode { image: ImageHandle { id: 0u64 }, image_mode: NodeImageMode::Auto }
}

impl Default for ImageNode {
    /// A fresh image node draws the host engine's default image, fitted
    /// automatically.
    fn default() -> (r: Self)
        ensures
            r == spec_default_image(),
    {
        ImageNode { image: ImageHandle { id: 0 }, image_mode: NodeImageMode::Auto }
    }
}

/// How a container is visually styled in the background.
#[derive(Debug, Clone, Copy, PartialEq, Eq)]
pub struct BackgroundStyle {
    /// A solid fill color.
    pub color: Rgba,
    /// A textured background image, drawn over the fill.
    pub image: ImageNode,
}

/// The background of a fresh container: a transparent fill and the default
/// image.
pub open spec fn spec_default_background() -> BackgroundStyle {
    BackgroundStyle { color: spec_clear(), image: spec_default_image() }
}

/// The background a fresh button carries: a plain white fill.
pub open spec fn spec_button_background() -> BackgroundStyle {
    BackgroundStyle { color: spec_white(), image: spec_default_image() }
}

impl Default for BackgroundStyle {
    /// A fresh background fills with nothing.
    fn default() -> (r: Self)
        ensures
            r == spec_default_background(),
    {
        BackgroundStyle { color: Rgba::clear(), image: ImageNode::default() }
    }
}

impl BackgroundStyle {
    /// The background a fresh button carries: a plain white fill.
    pub fn button() -> (r: Self)
        ensures
            r == spec_button_background(),
    {
        BackgroundStyle { color: Rgba::white(), image: ImageNode::default() }
    }
}

/// Chainable background configuration for a view that owns a
/// [`BackgroundStyle`].
pub trait BackgroundView: View {
    /// The view's background style.
    spec fn background_of(self) -> BackgroundStyle;

    /// The view with its background style replaced and everything else
    /// untouched.
    spec fn with_background(self, background: BackgroundStyle) -> Self;

    /// Replacing the background style changes the background style alone.
    proof fn lemma_with_background(self, background: BackgroundStyle)
        ensures
            self.with_background(background).background_of() == background,
            self.with_background(background).name_of() == self.name_of(),
            self.with_background(background).node_of() == self.node_of(),
    ;

    /// The background style survives replacing the name tag or the layout
    /// node.
    proof fn lemma_background_preserved(self, name: Name, node: Node)
        ensures
            self.with_name(name).background_of() == self.background_of(),
            self.with_node(node).background_of() == self.background_of(),
    ;

    /// Gives mutable access to the background style; the rest of the view
    /// keeps its value.
    fn background_node(&mut self) -> (background: &mut BackgroundStyle)
        ensures
            *background == old(self).background_of(),
            *final(self) == old(self).with_background(*final(background)),
    ;

    /// Sets a solid color as the background.
    fn background_color(self, color: Rgba) -> (r: Self)
        ensures
            r == self.with_background(
                (BackgroundStyle { color: color, ..self.background_of() }),
            ),
    {
        let mut s = self;
        let background = s.background_node();
        background.color = color;
        s
    }

    /// Sets an image as the background, fitted automatically.
    fn background_image(self, image: ImageHandle) -> (r: Self)
        ensures
            r == self.with_background(
                (BackgroundStyle {
                    image: (ImageNode { image: image, image_mode: NodeImageMode::Auto }),
                    ..self.background_of()
                }),
            ),
    {
        let mut s = self;
        let background = s.background_node();
        background.image = ImageNode { image, image_mode: NodeImageMode::Auto };
        s
    }

    /// Sets how the background image is fitted to the node.
    fn background_image_mode(self, image_mode: NodeImageMode) -> (r: Self)
        ensures
            r == self.with_background(
                (BackgroundStyle {
                    image: (ImageNode { image_mode: image_mode, ..self.background_of().image }),
                    ..self.background_of()
                }),
            ),
    {
        let mut s = self;
        let background = s.background_node();
        background.image.image_mode = image_mode;
        s
    }
}

} // verus!
