//! Styled text: content, font, color and paragraph layout.

pub mod swoop_text;

use vstd::prelude::*;
use vstd::view::View as _;

use crate::{Name, View};
use crate::assets::FontHandle;
use crate::color::{Rgba, spec_black};
use crate::layout::Node;

verus! {

/// The string a text element displays.
#[derive(Debug, Clone, PartialEq, Eq)]
pub struct Text {
    /// The displayed characters.
    pub value: String,
}

/// Horizontal alignment of a text's lines within its bounds.
#[derive(Debug, Clone, Copy, PartialEq, Eq)]
pub enum JustifyText {
    /// Lines start at the left edge.
    Left,
    /// Lines are centered.
    Center,
    /// Lines end at the right edge.
    Right,
    /// Words are spaced so that lines fill the bounds.
    Justified,
}

/// Where a text may be broken onto the next line.
#[derive(Debug, Clone, Copy, PartialEq, Eq)]
pub enum LineBreak {
    /// Break at suitable word boundaries, keeping words intact.
    WordBoundary,
    /// Break on any character that would leave the bounds.
    AnyCharacter,
    /// Break at word boundaries, or inside a word that cannot fit a line by
    /// itself.
    WordOrCharacter,
    /// Never soft-wrap.
    NoWrap,
}

/// Paragraph-level layout of a text element.
#[derive(Debug, Clone, Copy, PartialEq, Eq)]
pub struct TextLayout {
    /// Horizontal alignment of the lines.
    pub justify: JustifyText,
    /// Where lines may be broken.
    pub linebreak: LineBreak,
}

/// The vertical height of a line of text.
#[derive(Debug, Clone, Copy, PartialEq, Eq)]
pub enum LineHeight {
    /// A fixed line height in logical pixels.
    Px(i32),
    /// A multiple of the font size, in hundredths.
    RelativeToFont(i32),
}

/// The antialiasing applied when text is rasterized.
#[derive(Debug, Clone, Copy, PartialEq, Eq)]
pub enum FontSmoothing {
    /// No antialiasing; for a pixel-art look.
    Off,
    /// Grayscale antialiasing, the usual smooth rendering.
    AntiAliased,
}

/// The font properties of a text element.
#[derive(Debug, Clone, Copy, PartialEq, Eq)]
pub struct TextFont {
    /// The font face, as a handle to a font asset.
    pub font: FontHandle,
    /// The glyph height in logical pixels.
    pub font_size: u32,
    /// The vertical height of a line, from one line's top to the next.
    pub line_height: LineHeight,
    /// The antialiasing applied when the text is rasterized.
    pub font_smoothing: FontSmoothing,
}

/// The font of a fresh text style: the default face at sixteen pixels, lines
/// a fifth taller than the glyphs, antialiased.
pub open spec fn spec_default_text_font() -> TextFont {
    TextFont {
        font: FontHandle { id: 0u64 },
        font_size: 16u32,
        line_height: LineHeight::RelativeToFont(120),
        font_smoothing: FontSmoothing::AntiAliased,
    }
}

/// Styled text appearance: paragraph layout, content, color and font.
#[derive(Debug, Clone, PartialEq, Eq)]
pub struct TextStyle {
    /// Paragraph-level layout: alignment and line breaking.
    pub layout: TextLayout,
    /// The displayed string.
    pub text: Text,
    /// The color the glyphs are drawn with.
    pub color: Rgba,
    /// The font the glyphs are drawn with.
    pub font: TextFont,
}

/// Holds when `t` is a fresh text style: centered unwrapped layout, empty
/// content, black glyphs and the default font.
pub open spec fn is_default_text_style(t: TextStyle) -> bool {
    &&& t.layout == (TextLayout { justify: JustifyText::Center, linebreak: LineBreak::NoWrap })
    &&& t.text.value@.len() == 0
    &&& t.color == spec_black()
    &&& t.font == spec_default_text_font()
}

impl Default for TextStyle {
    /// A fresh text style centers its lines, never wraps, displays nothing,
    /// and draws black glyphs with the default font.
    fn default() -> (r: Self)
        ensures
            is_default_text_style(r),
    {
        TextStyle {
            layout: TextLayout { justify: JustifyText::Center, linebreak: LineBreak::NoWrap },
            text: Text { value: String::new() },
            color: Rgba::black(),
            font: TextFont {
                font: FontHandle { id: 0 },
                font_size: 16,
                line_height: LineHeight::RelativeToFont(120),
                font_smoothing: FontSmoothing::AntiAliased,
            },
        }
    }
}

impl TextStyle {
    /// The text style a fresh button label carries, which is the default
    /// style: centered, unwrapped, black glyphs.
    pub fn button() -> (r: Self)
        ensures
            is_default_text_style(r),
    {
        TextStyle::default()
    }
}

/// Chainable text configuration for a view that owns a [`TextStyle`].
pub trait TextView: View {
    /// The view's text style.
    spec fn text_style_of(self) -> TextStyle;

    /// The view with its text style replaced and everything else untouched.
    spec fn with_text_style(self, text_style: TextStyle) -> Self;

    /// Replacing the text style changes the text style alone.
    proof fn lemma_with_text_style(self, text_style: TextStyle)
        ensures
            self.with_text_style(text_style).text_style_of() == text_style,
            self.with_text_style(text_style).name_of() == self.name_of(),
            self.with_text_style(text_style).node_of() == self.node_of(),
    ;

    /// The text style survives replacing the name tag or the layout node.
    proof fn lemma_text_style_preserved(self, name: Name, node: Node)
        ensures
            self.with_name(name).text_style_of() == self.text_style_of(),
            self.with_node(node).text_style_of() == self.text_style_of(),
    ;

    /// Gives mutable access to the text style; the rest of the view keeps
    /// its value.
    fn text_node(&mut self) -> (text_style: &mut TextStyle)
        ensures
            *text_style == old(self).text_style_of(),
            *final(self) == old(self).with_text_style(*final(text_style)),
    ;

    /// Sets the horizontal alignment of the text's lines.
    fn text_alignment(self, justify_text: JustifyText) -> (r: Self)
        ensures
            r == self.with_text_style(
                (TextStyle {
                    layout: (TextLayout {
                        justify: justify_text,
                        ..self.text_style_of().layout
                    }),
                    ..self.text_style_of()
                }),
            ),
    {
        let mut s = self;
        let text_style = s.text_node();
        text_style.layout.justify = justify_text;
        s
    }

    /// Sets where the text may be broken onto the next line.
    fn text_linebreak(self, line_break: LineBreak) -> (r: Self)
        ensures
            r == self.with_text_style(
                (TextStyle {
                    layout: (TextLayout {
                        linebreak: line_break,
                        ..self.text_style_of().layout
                    }),
                    ..self.text_style_of()
                }),
            ),
    {
        let mut s = self;
        let text_style = s.text_node();
        text_style.layout.linebreak = line_break;
        s
    }

    /// Sets the displayed string.
    fn text(self, text: String) -> (r: Self)
        ensures
            r == self.with_text_style(
                (TextStyle { text: (Text { value: text }), ..self.text_style_of() }),
            ),
    {
        let mut s = self;
        let text_style = s.text_node();
        text_style.text.value = text;
        s
    }

    /// Sets the color the glyphs are drawn with.
    fn text_color(self, color: Rgba) -> (r: Self)
        ensures
            r == self.with_text_style(
                (TextStyle { color: color, ..self.text_style_of() }),
            ),
    {
        let mut s = self;
        let text_style = s.text_node();
        text_style.color = color;
        s
    }

    /// Sets the font face.
    fn font(self, font: FontHandle) -> (r: Self)
        ensures
            r == self.with_text_style(
                (TextStyle {
                    font: (TextFont { font: font, ..self.text_style_of().font }),
                    ..self.text_style_of()
                }),
            ),
    {
        let mut s = self;
        let text_style = s.text_node();
        text_style.font.font = font;
        s
    }

    /// Sets the glyph height in logical pixels.
    fn font_size(self, font_size: u32) -> (r: Self)
        ensures
            r == self.with_text_style(
                (TextStyle {
                    font: (TextFont { font_size: font_size, ..self.text_style_of().font }),
                    ..self.text_style_of()
                }),
            ),
    {
        let mut s = self;
        let text_style = s.text_node();
        text_style.font.font_size = font_size;
        s
    }

    /// Sets the vertical height of a line of text.
    fn line_height(self, line_height: LineHeight) -> (r: Self)
        ensures
            r == self.with_text_style(
                (TextStyle {
                    font: (TextFont { line_height: line_height, ..self.text_style_of().font }),
                    ..self.text_style_of()
                }),
            ),
    {
        let mut s = self;
        let text_style = s.text_node();
        text_style.font.line_height = line_height;
        s
    }

    /// Sets the antialiasing applied when the text is rasterized.
    fn font_smoothing(self, font_smoothing: FontSmoothing) -> (r: Self)
        ensures
            r == self.with_text_style(
                (TextStyle {
                    font: (TextFont {
                        font_smoothing: font_smoothing,
                        ..self.text_style_of().font
                    }),
                    ..self.text_style_of()
                }),
            ),
    {
        let mut s = self;
        let text_style = s.text_node();
        text_style.font.font_smoothing = font_smoothing;
        s
    }
}

} // verus!
