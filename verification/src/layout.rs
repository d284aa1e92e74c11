//! The plain-value layout model: a `Node` carries every layout property this
//! builder can style, and the host engine's layout solver consumes it.

use vstd::prelude::*;
use crate::units::{Val, UiRect, spec_zero_rect};

verus! {

/// Which layout algorithm lays out a node's children.
#[derive(Debug, Clone, Copy, PartialEq, Eq)]
pub enum Display {
    /// Children are laid out with the flexbox algorithm.
    Flex,
    /// Children are laid out with the grid algorithm.
    Grid,
    /// Children are laid out as stacked blocks.
    Block,
    /// The node and its children are not laid out.
    Hidden,
}

/// Whether a node is placed in the normal flow or positioned absolutely
/// against its parent.
#[derive(Debug, Clone, Copy, PartialEq, Eq)]
pub enum PositionType {
    /// Placed relative to the other nodes in the normal flow.
    Relative,
    /// Placed independently, offset from the parent's edges.
    Absolute,
}

/// The main-axis direction of a flex container.
#[derive(Debug, Clone, Copy, PartialEq, Eq)]
pub enum FlexDirection {
    /// Lay children out along the text direction.
    Row,
    /// Lay children out from top to bottom.
    Column,
    /// Lay children out against the text direction.
    RowReverse,
    /// Lay children out from bottom to top.
    ColumnReverse,
}

/// Whether flex children stay on one line or wrap onto further lines.
#[derive(Debug, Clone, Copy, PartialEq, Eq)]
pub enum FlexWrap {
    /// A single line that may overflow.
    NoWrap,
    /// Wrap onto further lines as needed.
    Wrap,
    /// Wrap, with new lines placed before the previous one.
    WrapReverse,
}

/// How free space along the main axis is distributed.
#[derive(Debug, Clone, Copy, PartialEq, Eq)]
pub enum JustifyContent {
    /// No particular distribution is requested.
    Default,
    /// Pack children towards the start of the axis.
    Start,
    /// Pack children towards the end of the axis.
    End,
    /// Pack towards the start, or the end when the direction is reversed.
    FlexStart,
    /// Pack towards the end, or the start when the direction is reversed.
    FlexEnd,
    /// Pack children around the center of the axis.
    Center,
    /// Stretch children to fill the axis.
    Stretch,
    /// Spread children with equal space between them.
    SpaceBetween,
    /// Spread children with equal space around each of them.
    SpaceEvenly,
    /// Spread children with half-size space at the ends.
    SpaceAround,
}

/// How children are aligned along the cross axis.
#[derive(Debug, Clone, Copy, PartialEq, Eq)]
pub enum AlignItems {
    /// No particular alignment is requested.
    Default,
    /// Align children towards the start of the axis.
    Start,
    /// Align children towards the end of the axis.
    End,
    /// Align towards the start, or the end when the direction is reversed.
    FlexStart,
    /// Align towards the end, or the start when the direction is reversed.
    FlexEnd,
    /// Align children along the center of the axis.
    Center,
    /// Align children so that their text baselines line up.
    Baseline,
    /// Stretch children to fill the axis.
    Stretch,
}

/// Whether grid items are placed row-wise or column-wise, and whether the
/// dense packing algorithm back-fills holes.
#[derive(Debug, Clone, Copy, PartialEq, Eq)]
pub enum GridAutoFlow {
    /// Fill each row in turn, adding rows as necessary.
    Row,
    /// Fill each column in turn, adding columns as necessary.
    Column,
    /// Row-wise placement with dense packing.
    RowDense,
    /// Column-wise placement with dense packing.
    ColumnDense,
}

/// The sizing of one grid track (one row or column).
#[derive(Debug, Clone, Copy, PartialEq, Eq)]
pub enum GridTrack {
    /// Size the track to fit its contents.
    Auto,
    /// Size the track to its contents under a min-content constraint.
    MinContent,
    /// Size the track to its contents under a max-content constraint.
    MaxContent,
    /// A fixed track size in logical pixels.
    Px(i32),
    /// A track size as a share of the available space, in percent.
    Percent(i32),
    /// A share of the remaining space, in fractional units, with a
    /// content-based minimum.
    Fr(i32),
    /// A share of the remaining space, in fractional units, with a zero
    /// minimum.
    Flex(i32),
}

/// How often a repeated track template is instantiated.
#[derive(Debug, Clone, Copy, PartialEq, Eq)]
pub enum GridTrackRepetition {
    /// Repeat the tracks a fixed number of times.
    Count(u16),
    /// Repeat as often as fits, filling the axis.
    AutoFill,
    /// Like `AutoFill`, but collapse empty tracks.
    AutoFit,
}

/// A run of grid tracks together with its repetition rule, as used in grid
/// track templates.
#[derive(Debug, Clone, PartialEq, Eq)]
pub struct RepeatedGridTrack {
    /// How often the run of tracks repeats.
    pub repetition: GridTrackRepetition,
    /// The tracks that make up one repetition.
    pub tracks: Vec<GridTrack>,
}

/// The position of a grid item along one axis: an optional start line, an
/// optional end line, and an optional track span. Grid lines are 1-indexed
/// and count from the end when negative; zero is never a valid line or span.
#[derive(Debug, Clone, Copy, PartialEq, Eq)]
pub struct GridPlacement {
    /// The grid line at which the item starts, when pinned.
    pub start: Option<i16>,
    /// How many tracks the item spans, when given.
    pub span: Option<u16>,
    /// The grid line at which the item ends, when pinned.
    pub end: Option<i16>,
}

/// A grid placement never names the zero grid line or a zero span.
pub open spec fn placement_valid(p: GridPlacement) -> bool {
    &&& (p.start matches Some(s) ==> s != 0)
    &&& (p.span matches Some(s) ==> s != 0)
    &&& (p.end matches Some(e) ==> e != 0)
}

/// The placement of a fresh grid item: placed automatically, spanning one
/// track.
pub open spec fn spec_auto_placement() -> GridPlacement {
    GridPlacement { start: None, span: Some(1u16), end: None }
}

impl GridPlacement {
    /// Places the item automatically, spanning one track.
    pub fn auto() -> (r: Self)
        ensures
            r == spec_auto_placement(),
            placement_valid(r),
    {
        GridPlacement { start: None, span: Some(1), end: None }
    }

    /// Places the item at the given start line, spanning one track.
    pub fn start(start: i16) -> (r: Self)
        requires
            start != 0,
        ensures
            r == (GridPlacement { start: Some(start), span: Some(1u16), end: None }),
            placement_valid(r),
    {
        GridPlacement { start: Some(start), span: Some(1), end: None }
    }

    /// Places the item so that it ends at the given line, spanning one track.
    pub fn end(end: i16) -> (r: Self)
        requires
            end != 0,
        ensures
            r == (GridPlacement { start: None, span: Some(1u16), end: Some(end) }),
            placement_valid(r),
    {
        GridPlacement { start: None, span: Some(1), end: Some(end) }
    }

    /// Places the item automatically with the given span.
    pub fn span(span: u16) -> (r: Self)
        requires
            span != 0,
        ensures
            r == (GridPlacement { start: None, span: Some(span), end: None }),
            placement_valid(r),
    {
        GridPlacement { start: None, span: Some(span), end: None }
    }

    /// Places the item at the given start line with the given span.
    pub fn start_span(start: i16, span: u16) -> (r: Self)
        requires
            start != 0,
            span != 0,
        ensures
            r == (GridPlacement { start: Some(start), span: Some(span), end: None }),
            placement_valid(r),
    {
        GridPlacement { start: Some(start), span: Some(span), end: None }
    }
}

impl Default for GridPlacement {
    /// A fresh grid item is placed automatically, spanning one track.
    fn default() -> (r: Self)
        ensures
            r == spec_auto_placement(),
    {
        GridPlacement::auto()
    }
}

/// The layout properties of one UI node, as plain values.
///
/// The model carries exactly the properties this builder styles; the host
/// engine supplies its own defaults for everything else when the bundle is
/// handed over.
#[derive(Debug, Clone, PartialEq, Eq)]
pub struct Node {
    /// Which layout algorithm lays out the children.
    pub display: Display,
    /// Normal-flow or absolute positioning.
    pub position_type: PositionType,
    /// Offset from the parent's left edge, for absolute positioning.
    pub left: Val,
    /// Offset from the parent's right edge, for absolute positioning.
    pub right: Val,
    /// Offset from the parent's top edge, for absolute positioning.
    pub top: Val,
    /// Offset from the parent's bottom edge, for absolute positioning.
    pub bottom: Val,
    /// The main-axis direction of a flex container.
    pub flex_direction: FlexDirection,
    /// Whether flex children wrap onto further lines.
    pub flex_wrap: FlexWrap,
    /// Cross-axis alignment of the children.
    pub align_items: AlignItems,
    /// Main-axis distribution of the children.
    pub justify_content: JustifyContent,
    /// Spacing between the node's edges and its content.
    pub padding: UiRect,
    /// The width of the border on each edge.
    pub border: UiRect,
    /// How strongly the node grows when there is spare space, as a plain
    /// integer factor.
    pub flex_grow: u32,
    /// How strongly the node shrinks when space is short, as a plain integer
    /// factor.
    pub flex_shrink: u32,
    /// The requested width.
    pub width: Val,
    /// The requested height.
    pub height: Val,
    /// The smallest width the node may take.
    pub min_width: Val,
    /// The smallest height the node may take.
    pub min_height: Val,
    /// The largest width the node may take.
    pub max_width: Val,
    /// The largest height the node may take.
    pub max_height: Val,
    /// Vertical spacing between rows.
    pub row_gap: Val,
    /// Horizontal spacing between columns.
    pub column_gap: Val,
    /// Row-wise or column-wise automatic placement of grid items.
    pub grid_auto_flow: GridAutoFlow,
    /// The explicit row track template of a grid container.
    pub grid_template_rows: Vec<RepeatedGridTrack>,
    /// The explicit column track template of a grid container.
    pub grid_template_columns: Vec<RepeatedGridTrack>,
    /// Sizing for implicitly created rows.
    pub grid_auto_rows: Vec<GridTrack>,
    /// Sizing for implicitly created columns.
    pub grid_auto_columns: Vec<GridTrack>,
    /// The node's row placement when it is a grid item.
    pub grid_row: GridPlacement,
    /// The node's column placement when it is a grid item.
    pub grid_column: GridPlacement,
}

/// Holds exactly when `n` is a freshly built node whose layout knobs carry
/// the given values and every other property its starting value: no offsets,
/// no padding or border, automatic sizing, no gaps, no wrapping, empty grid
/// templates and automatic grid placement.
pub open spec fn is_initial_node(
    n: Node,
    display: Display,
    flex_direction: FlexDirection,
    grid_auto_flow: GridAutoFlow,
    justify_content: JustifyContent,
    align_items: AlignItems,
) -> bool {
    &&& n.display == display
    &&& n.position_type == PositionType::Relative
    &&& n.left == Val::Auto
    &&& n.right == Val::Auto
    &&& n.top == Val::Auto
    &&& n.bottom == Val::Auto
    &&& n.flex_direction == flex_direction
    &&& n.flex_wrap == FlexWrap::NoWrap
    &&& n.align_items == align_items
    &&& n.justify_content == justify_content
    &&& n.padding == spec_zero_rect()
    &&& n.border == spec_zero_rect()
    &&& n.flex_grow == 0u32
    &&& n.flex_shrink == 1u32
    &&& n.width == Val::Auto
    &&& n.height == Val::Auto
    &&& n.min_width == Val::Auto
    &&& n.min_height == Val::Auto
    &&& n.max_width == Val::Auto
    &&& n.max_height == Val::Auto
    &&& n.row_gap == Val::Px(0)
    &&& n.column_gap == Val::Px(0)
    &&& n.grid_auto_flow == grid_auto_flow
    &&& n.grid_template_rows@.len() == 0
    &&& n.grid_template_columns@.len() == 0
    &&& n.grid_auto_rows@.len() == 0
    &&& n.grid_auto_columns@.len() == 0
    &&& n.grid_row == spec_auto_placement()
    &&& n.grid_column == spec_auto_placement()
}

impl Default for Node {
    /// A fresh node is a flex row in the normal flow with automatic sizing
    /// and no spacing of any kind.
    fn default() -> (r: Self)
        ensures
            is_initial_node(
                r,
                Display::Flex,
                FlexDirection::Row,
                GridAutoFlow::Row,
                JustifyContent::Default,
                AlignItems::Default,
            ),
    {
        Node {
            display: Display::Flex,
            position_type: PositionType::Relative,
            left: Val::Auto,
            right: Val::Auto,
            top: Val::Auto,
            bottom: Val::Auto,
            flex_direction: FlexDirection::Row,
            flex_wrap: FlexWrap::NoWrap,
            align_items: AlignItems::Default,
            justify_content: JustifyContent::Default,
            padding: UiRect::zero(),
            border: UiRect::zero(),
            flex_grow: 0,
            flex_shrink: 1,
            width: Val::Auto,
            height: Val::Auto,
            min_width: Val::Auto,
            min_height: Val::Auto,
            max_width: Val::Auto,
            max_height: Val::Auto,
            row_gap: Val::Px(0),
            column_gap: Val::Px(0),
            grid_auto_flow: GridAutoFlow::Row,
            grid_template_rows: Vec::new(),
            grid_template_columns: Vec::new(),
            grid_auto_rows: Vec::new(),
            grid_auto_columns: Vec::new(),
            grid_row: GridPlacement::auto(),
            grid_column: GridPlacement::auto(),
        }
    }
}

} // verus!
