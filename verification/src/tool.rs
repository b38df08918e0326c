//! The wall tool: two presses of the primary action make one wall.
//!
//! The first press sets an anchor at the cursor's grid node. The second
//! makes the segment from the anchor to the cursor's node, merges it into
//! the ship's walls and clears the anchor. At most one anchor is pending at
//! any time, and it is dropped, never merged, when the tool is left.

use vstd::prelude::*;
use crate::grid::{cursor_of, get_cursor_position, is_on_grid, on_grid, Point};
use crate::outline::{committed_vertices, Segment, ShipWalls};

verus! {

/// The path in progress: no anchor while the tool is idle, or the one anchor
/// that waits for the press that completes its segment.
#[derive(Clone, Copy, Debug, PartialEq, Eq, Structural)]
pub struct PendingPath {
    pub anchor: Option<Point>,
}

impl PendingPath {
    /// A pending path without an anchor.
    pub fn new() -> (pending: PendingPath)
        ensures
            pending.anchor is None,
    {
        PendingPath { anchor: None }
    }

    /// Starts a path at `point`.
    pub fn start(&mut self, point: Point)
        ensures
            final(self).anchor == Some(point),
    {
        self.anchor = Some(point);
    }

    /// Extends the path to `point`, which completes it: the segment from the
    /// anchor to `point` is handed out and no anchor is left. Without an
    /// anchor there is nothing to complete and nothing changes.
    pub fn complete(&mut self, point: Point) -> (segment: Option<Segment>)
        ensures
            final(self).anchor is None,
            segment == old(self).segment_to(Some(point)),
    {
        match self.anchor {
            Some(anchor) => {
                self.anchor = None;
                Some(Segment { start: anchor, end: point })
            },
            None => None,
        }
    }

    /// Drops the anchor, if there is one.
    pub fn reset(&mut self)
        ensures
            final(self).anchor is None,
    {
        self.anchor = None;
    }

    /// The segment from the anchor to `cursor`, where both exist.
    pub open spec fn segment_to(self, cursor: Option<Point>) -> Option<Segment> {
        match (self.anchor, cursor) {
            (Some(anchor), Some(point)) => Some(Segment { start: anchor, end: point }),
            _ => None,
        }
    }

    /// The segment to show while an anchor waits: from the anchor to
    /// `cursor`. It is for display only and changes nothing.
    pub fn preview(&self, cursor: Option<Point>) -> (segment: Option<Segment>)
        ensures
            segment == self.segment_to(cursor),
    {
        match (self.anchor, cursor) {
            (Some(anchor), Some(point)) => Some(Segment { start: anchor, end: point }),
            _ => None,
        }
    }
}

/// What a press of the primary action did.
#[derive(Clone, Copy, Debug, PartialEq, Eq, Structural)]
pub enum PressOutcome {
    /// There was no cursor: nothing changed.
    Ignored,
    /// The anchor was set at this node.
    Anchored(Point),
    /// This segment was merged into the walls.
    Committed(Segment),
}

/// The wall tool: its grid and its pending path.
#[derive(Clone, Copy, Debug, PartialEq, Eq, Structural)]
pub struct WallTool {
    pub cell: i64,
    pub pending: PendingPath,
}

impl WallTool {
    /// The cell size is positive and a pending anchor is a node of the grid.
    pub open spec fn wf(self) -> bool {
        &&& self.cell > 0
        &&& self.pending.anchor is Some ==> on_grid(self.pending.anchor->0, self.cell)
    }

    /// The tool after a press with the projector's answer `projected`.
    pub open spec fn after_press(self, projected: Option<Point>) -> WallTool {
        match (cursor_of(projected, self.cell), self.pending.anchor) {
            (None, _) => self,
            (Some(node), None) => WallTool {
                cell: self.cell,
                pending: PendingPath { anchor: Some(node) },
            },
            (Some(_), Some(_)) => WallTool { cell: self.cell, pending: PendingPath { anchor: None } },
        }
    }

    /// The segment from the pending anchor to the cursor's node, where both
    /// exist: what a press merges into the walls, and what is shown while
    /// the anchor waits.
    pub open spec fn segment_to_cursor(self, projected: Option<Point>) -> Option<Segment> {
        self.pending.segment_to(cursor_of(projected, self.cell))
    }

    /// What a press with the projector's answer `projected` reports.
    pub open spec fn press_outcome(self, projected: Option<Point>) -> PressOutcome {
        match (cursor_of(projected, self.cell), self.pending.anchor) {
            (None, _) => PressOutcome::Ignored,
            (Some(node), None) => PressOutcome::Anchored(node),
            (Some(node), Some(anchor)) => PressOutcome::Committed(
                Segment { start: anchor, end: node },
            ),
        }
    }

    /// Whether the tool is sound.
    pub fn is_wf(&self) -> (ok: bool)
        ensures
            ok == self.wf(),
    {
        if self.cell <= 0 {
            return false;
        }
        match self.pending.anchor {
            Some(anchor) => is_on_grid(anchor, self.cell),
            None => true,
        }
    }

    /// An idle wall tool on a grid of cell size `cell`.
    pub fn new(cell: i64) -> (tool: WallTool)
        requires
            cell > 0,
        ensures
            tool.cell == cell,
            tool.pending.anchor is None,
            tool.wf(),
    {
        WallTool { cell, pending: PendingPath::new() }
    }

    /// One press of the primary action.
    ///
    /// Without a cursor the press is ignored. With one, the cursor's node
    /// becomes the anchor if none is pending; else the segment from the
    /// anchor to the node is merged into `walls` and the anchor is cleared.
    pub fn press(&mut self, projected: Option<Point>, walls: &mut ShipWalls) -> (outcome:
        PressOutcome)
        requires
            old(self).wf(),
        ensures
            *final(self) == old(self).after_press(projected),
            final(walls)@ == old(walls)@ + committed_vertices(old(self).segment_to_cursor(projected)),
            outcome == old(self).press_outcome(projected),
            final(self).wf(),
            old(walls).wf() ==> final(walls).wf(),
    {
        match get_cursor_position(projected, self.cell) {
            None => {
                PressOutcome::Ignored
            },
            Some(node) => {
                match self.pending.complete(node) {
                    None => {
                        self.pending.start(node);
                        PressOutcome::Anchored(node)
                    },
                    Some(segment) => {
                        walls.append_segment(segment);
                        PressOutcome::Committed(segment)
                    },
                }
            },
        }
    }

    /// The segment to show in this frame: from the pending anchor to the
    /// cursor's node. It is never part of the walls.
    pub fn preview(&self, projected: Option<Point>) -> (segment: Option<Segment>)
        requires
            self.wf(),
        ensures
            segment == self.segment_to_cursor(projected),
    {
        self.pending.preview(get_cursor_position(projected, self.cell))
    }

    /// Drops a pending anchor without merging anything: what leaving the
    /// tool does.
    pub fn discard(&mut self)
        ensures
            final(self).cell == old(self).cell,
            final(self).pending.anchor is None,
            old(self).wf() ==> final(self).wf(),
    {
        self.pending.reset();
    }
}

} // verus!
