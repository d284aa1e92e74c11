//! A fluent styling and layout builder layer for UI entities.
//!
//! The crate assembles small, plain-value style bundles — layout nodes,
//! backgrounds, borders, shadows and text styling — through chainable
//! configuration methods, and proves that every setter writes exactly the
//! field it names and leaves the rest of the builder unchanged. A finished
//! bundle is handed over to a host engine's entity-spawning machinery, which
//! owns layout solving, text shaping and rendering.
//!
//! The layout containers `HStack`, `VStack`, `HGrid` and `VGrid`, the button
//! views and `SwoopText` all implement the [`View`] trait and pick up the
//! styling traits ([`BackgroundView`](background::BackgroundView),
//! [`BorderView`](border::BorderView) and so on) that fit them.

pub mod assets;
pub mod background;
pub mod border;
pub mod button;
pub mod color;
pub mod container;
pub mod layout;
pub mod position;
pub mod prelude;
pub mod shadow;
pub mod text;
pub mod units;

use vstd::prelude::*;
use vstd::view::View as _;

use crate::layout::{AlignItems, JustifyContent, Node};

verus! {

/// A tag that identifies a UI entity, for inspection and debugging.
#[derive(Debug, Clone, PartialEq, Eq)]
pub struct Name {
    /// The tag's text.
    pub text: String,
}

impl Name {
    /// Builds a tag from its text.
    pub fn new(text: String) -> (r: Self)
        ensures
            r == (Name { text: text }),
    {
        Name { text }
    }

    /// Replaces the tag's text.
    pub fn set(&mut self, text: String)
        ensures
            *final(self) == (Name { text: text }),
    {
        self.text = text;
    }
}

/// Reserved for future registration of systems with the host engine; the
/// surrounding application installs it when building the app.
#[derive(Debug, Clone, Copy, PartialEq, Eq)]
pub struct SwoopUiPlugin;

/// A builder for one styled UI element, configured through chainable methods
/// and finally converted into the host engine's native component set.
///
/// Every view owns a [`Name`] tag and a layout [`Node`]; the spec functions
/// `name_of` / `node_of` read them and `with_name` / `with_node` describe a
/// view with one of them replaced and everything else untouched. Each
/// chainable method's contract pins the returned builder exactly in that
/// vocabulary.
pub trait View: Sized {
    /// The view's name tag.
    spec fn name_of(self) -> Name;

    /// The view with its name tag replaced and everything else untouched.
    spec fn with_name(self, name: Name) -> Self;

    /// The view's layout node.
    spec fn node_of(self) -> Node;

    /// The view with its layout node replaced and everything else untouched.
    spec fn with_node(self, node: Node) -> Self;

    /// Holds when every component other than the name tag and the layout
    /// node carries its default value.
    spec fn rest_is_default(self) -> bool;

    /// The name a freshly built view carries.
    spec fn default_tag() -> Seq<char>;

    /// The main-axis distribution a freshly built view carries.
    spec fn default_justify() -> JustifyContent;

    /// The cross-axis alignment a freshly built view carries.
    spec fn default_align() -> AlignItems;

    /// Holds when `node` is a freshly built layout node for this view type,
    /// up to the given main-axis distribution and cross-axis alignment.
    spec fn is_initial_layout(node: Node, justify: JustifyContent, align: AlignItems) -> bool;

    /// Replacing the name tag changes the name tag alone.
    proof fn lemma_with_name(self, name: Name)
        ensures
            self.with_name(name).name_of() == name,
            self.with_name(name).node_of() == self.node_of(),
            self.with_name(name).rest_is_default() == self.rest_is_default(),
    ;

    /// Replacing the layout node changes the layout node alone.
    proof fn lemma_with_node(self, node: Node)
        ensures
            self.with_node(node).node_of() == node,
            self.with_node(node).name_of() == self.name_of(),
            self.with_node(node).rest_is_default() == self.rest_is_default(),
    ;

    /// A fresh layout node stays fresh when only its main-axis distribution
    /// is rewritten.
    proof fn lemma_initial_justify_update(
        node: Node,
        justify0: JustifyContent,
        align: AlignItems,
        justify: JustifyContent,
    )
        requires
            Self::is_initial_layout(node, justify0, align),
        ensures
            Self::is_initial_layout((Node { justify_content: justify, ..node }), justify, align),
    ;

    /// A fresh layout node stays fresh when only its cross-axis alignment is
    /// rewritten.
    proof fn lemma_initial_align_update(
        node: Node,
        justify: JustifyContent,
        align0: AlignItems,
        align: AlignItems,
    )
        requires
            Self::is_initial_layout(node, justify, align0),
        ensures
            Self::is_initial_layout((Node { align_items: align, ..node }), justify, align),
    ;

    /// Creates a fresh view with every component at its default.
    fn new() -> (r: Self)
        ensures
            r.rest_is_default(),
            Self::is_initial_layout(r.node_of(), Self::default_justify(), Self::default_align()),
            r.name_of().text@ == Self::default_tag(),
    ;

    /// Gives mutable access to the name tag; the rest of the view keeps its
    /// value.
    fn name_node(&mut self) -> (name: &mut Name)
        ensures
            *name == old(self).name_of(),
            *final(self) == old(self).with_name(*final(name)),
    ;

    /// Gives mutable access to the layout node; the rest of the view keeps
    /// its value.
    fn node_node(&mut self) -> (node: &mut Node)
        ensures
            *node == old(self).node_of(),
            *final(self) == old(self).with_node(*final(node)),
    ;

    /// Creates a fresh view carrying the given name tag.
    fn from_name(name: String) -> (r: Self)
        ensures
            r.rest_is_default(),
            Self::is_initial_layout(r.node_of(), Self::default_justify(), Self::default_align()),
            r.name_of() == (Name { text: name }),
    {
        let v = Self::new();
        proof {
            v.lemma_with_name((Name { text: name }));
        }
        v.name(name)
    }

    /// Sets the name tag.
    fn name(self, name: String) -> (r: Self)
        ensures
            r == self.with_name((Name { text: name })),
    {
        let mut s = self;
        let name_ref = s.name_node();
        name_ref.set(name);
        s
    }

    /// Sets the padding around the content.
    fn padding(self, padding: units::UiRect) -> (r: Self)
        ensures
            r == self.with_node((Node { padding: padding, ..self.node_of() })),
    {
        let mut s = self;
        let node = s.node_node();
        node.padding = padding;
        s
    }

    /// Sets both the width and the height.
    fn frame(self, width: units::Val, height: units::Val) -> (r: Self)
        ensures
            r == self.with_node((Node { width: width, height: height, ..self.node_of() })),
    {
        let mut s = self;
        let node = s.node_node();
        node.width = width;
        node.height = height;
        s
    }

    /// Sets the width.
    fn width(self, val: units::Val) -> (r: Self)
        ensures
            r == self.with_node((Node { width: val, ..self.node_of() })),
    {
        let mut s = self;
        let node = s.node_node();
        node.width = val;
        s
    }

    /// Sets the largest width the view may take.
    fn max_width(self, val: units::Val) -> (r: Self)
        ensures
            r == self.with_node((Node { max_width: val, ..self.node_of() })),
    {
        let mut s = self;
        let node = s.node_node();
        node.max_width = val;
        s
    }

    /// Sets the smallest width the view may take.
    fn min_width(self, val: units::Val) -> (r: Self)
        ensures
            r == self.with_node((Node { min_width: val, ..self.node_of() })),
    {
        let mut s = self;
        let node = s.node_node();
        node.min_width = val;
        s
    }

    /// Sets the height.
    fn height(self, val: units::Val) -> (r: Self)
        ensures
            r == self.with_node((Node { height: val, ..self.node_of() })),
    {
        let mut s = self;
        let node = s.node_node();
        node.height = val;
        s
    }

    /// Sets the largest height the view may take.
    fn max_height(self, val: units::Val) -> (r: Self)
        ensures
            r == self.with_node((Node { max_height: val, ..self.node_of() })),
    {
        let mut s = self;
        let node = s.node_node();
        node.max_height = val;
        s
    }

    /// Sets the smallest height the view may take.
    fn min_height(self, val: units::Val) -> (r: Self)
        ensures
            r == self.with_node((Node { min_height: val, ..self.node_of() })),
    {
        let mut s = self;
        let node = s.node_node();
        node.min_height = val;
        s
    }

    /// Sets how strongly the view grows when there is spare space.
    fn flex_grow(self, grow: u32) -> (r: Self)
        ensures
            r == self.with_node((Node { flex_grow: grow, ..self.node_of() })),
    {
        let mut s = self;
        let node = s.node_node();
        node.flex_grow = grow;
        s
    }

    /// Sets how strongly the view shrinks when space is short.
    fn flex_shrink(self, shrink: u32) -> (r: Self)
        ensures
            r == self.with_node((Node { flex_shrink: shrink, ..self.node_of() })),
    {
        let mut s = self;
        let node = s.node_node();
        node.flex_shrink = shrink;
        s
    }

    /// Assigns the view to a grid row when it is a grid item.
    fn grid_row(self, row: layout::GridPlacement) -> (r: Self)
        ensures
            r == self.with_node((Node { grid_row: row, ..self.node_of() })),
    {
        let mut s = self;
        let node = s.node_node();
        node.grid_row = row;
        s
    }

    /// Assigns the view to a grid column when it is a grid item.
    fn grid_column(self, column: layout::GridPlacement) -> (r: Self)
        ensures
            r == self.with_node((Node { grid_column: column, ..self.node_of() })),
    {
        let mut s = self;
        let node = s.node_node();
        node.grid_column = column;
        s
    }
}

/// Conversion of a finished view into the component set the host engine
/// spawns; for views whose parts end up on more than one entity.
pub trait ViewToBundle: View {
    /// The component set the view converts into.
    type Bundle;

    /// The exact component set `pack` hands over.
    spec fn pack_spec(self) -> Self::Bundle;

    /// Converts the view into the host engine's component set.
    fn pack(self) -> (r: Self::Bundle)
        ensures
            r == self.pack_spec(),
    ;
}

} // verus!
