//! Grid containers and their shared configuration methods.

pub mod h_grid;
pub mod v_grid;

use vstd::prelude::*;

use crate::View;
use crate::layout::{
    AlignItems, GridAutoFlow, GridTrack, JustifyContent, Node, RepeatedGridTrack,
};
use crate::units::Val;

verus! {

/// Chainable layout configuration for grid containers: track templates,
/// gaps, flow and alignment along both axes.
pub trait GridView: View {
    /// Sets how items are placed into the grid automatically.
    fn grid_auto_flow(self, flow: GridAutoFlow) -> (r: Self)
        ensures
            r == self.with_node((Node { grid_auto_flow: flow, ..self.node_of() })),
    {
        let mut s = self;
        let node = s.node_node();
        node.grid_auto_flow = flow;
        s
    }

    /// Sets the sizing of implicitly created columns.
    fn grid_auto_columns(self, tracks: Vec<GridTrack>) -> (r: Self)
        ensures
            r == self.with_node((Node { grid_auto_columns: tracks, ..self.node_of() })),
    {
        let mut s = self;
        let node = s.node_node();
        node.grid_auto_columns = tracks;
        s
    }

    /// Sets the sizing of implicitly created rows.
    fn grid_auto_rows(self, tracks: Vec<GridTrack>) -> (r: Self)
        ensures
            r == self.with_node((Node { grid_auto_rows: tracks, ..self.node_of() })),
    {
        let mut s = self;
        let node = s.node_node();
        node.grid_auto_rows = tracks;
        s
    }

    /// Sets the explicit column track template.
    fn grid_template_columns(self, tracks: Vec<RepeatedGridTrack>) -> (r: Self)
        ensures
            r == self.with_node((Node { grid_template_columns: tracks, ..self.node_of() })),
    {
        let mut s = self;
        let node = s.node_node();
        node.grid_template_columns = tracks;
        s
    }

    /// Sets the explicit row track template.
    fn grid_template_rows(self, tracks: Vec<RepeatedGridTrack>) -> (r: Self)
        ensures
            r == self.with_node((Node { grid_template_rows: tracks, ..self.node_of() })),
    {
        let mut s = self;
        let node = s.node_node();
        node.grid_template_rows = tracks;
        s
    }

    /// Sets how the grid content is distributed along the main axis.
    fn justify_content(self, justify: JustifyContent) -> (r: Self)
        ensures
            r == self.with_node((Node { justify_content: justify, ..self.node_of() })),
    {
        let mut s = self;
        let node = s.node_node();
        node.justify_content = justify;
        s
    }

    /// Sets how items are aligned within their cells along the cross axis.
    fn align_items(self, align_items: AlignItems) -> (r: Self)
        ensures
            r == self.with_node((Node { align_items: align_items, ..self.node_of() })),
    {
        let mut s = self;
        let node = s.node_node();
        node.align_items = align_items;
        s
    }

    /// Sets the vertical spacing between grid rows.
    fn row_gap(self, gap: Val) -> (r: Self)
        ensures
            r == self.with_node((Node { row_gap: gap, ..self.node_of() })),
    {
        let mut s = self;
        let node = s.node_node();
        node.row_gap = gap;
        s
    }

    /// Sets the horizontal spacing between grid columns.
    fn column_gap(self, gap: Val) -> (r: Self)
        ensures
            r == self.with_node((Node { column_gap: gap, ..self.node_of() })),
    {
        let mut s = self;
        let node = s.node_node();
        node.column_gap = gap;
        s
    }
}

} // verus!
