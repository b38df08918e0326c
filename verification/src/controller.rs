//! One frame of building: the mode transitions first, then the wall tool
//! under the modes that result.
//!
//! A tool that is deselected in a frame does not act on a press of the same
//! frame, and one that is selected in a frame does. An anchor that waits
//! when the wall tool is left is dropped, never merged.

use vstd::prelude::*;
use crate::grid::{lemma_snap_idempotent, snappable, snapped, Point};
use crate::mode::{BuildToolMode, InputEdges, Modes, PlayMode};
use crate::outline::{committed_vertices, Segment, ShipWalls, Vertex};
use crate::tool::{PendingPath, PressOutcome, WallTool};

verus! {

/// What a frame did to the walls and what it shows.
#[derive(Clone, Copy, Debug, PartialEq, Eq, Structural)]
pub struct FrameReport {
    /// The segment that was merged into the walls in this frame.
    pub commit: Option<Segment>,
    /// The segment to draw from the pending anchor to the cursor.
    pub preview: Option<Segment>,
}

/// The modes and the wall tool that they gate.
#[derive(Clone, Copy, Debug, PartialEq, Eq, Structural)]
pub struct BuildController {
    pub modes: Modes,
    pub wall_tool: WallTool,
}

impl BuildController {
    /// The modes fit together, the tool is sound, and an anchor waits only
    /// while the wall tool is selected.
    pub open spec fn wf(self) -> bool {
        &&& self.modes.wf()
        &&& self.wall_tool.wf()
        &&& self.wall_tool.pending.anchor is Some ==> self.modes.tool == BuildToolMode::WallTool
    }

    /// Whether the wall tool acts on a press in a frame with these edges: it
    /// is selected once the frame's transitions are made, and the primary
    /// action was pressed.
    pub open spec fn presses(self, edges: InputEdges) -> bool {
        self.modes.next(edges).tool == BuildToolMode::WallTool && edges.primary_action
    }

    /// The controller after a frame.
    pub open spec fn after_frame(self, edges: InputEdges, projected: Option<Point>)
        -> BuildController {
        BuildController {
            modes: self.modes.next(edges),
            wall_tool: if self.modes.next(edges).tool != BuildToolMode::WallTool {
                WallTool { cell: self.wall_tool.cell, pending: PendingPath { anchor: None } }
            } else if edges.primary_action {
                self.wall_tool.after_press(projected)
            } else {
                self.wall_tool
            },
        }
    }

    /// The segment that a frame merges into the walls, if it merges one.
    pub open spec fn frame_commit(self, edges: InputEdges, projected: Option<Point>) -> Option<
        Segment,
    > {
        if self.presses(edges) {
            self.wall_tool.segment_to_cursor(projected)
        } else {
            None
        }
    }

    /// The segment that a frame shows: while the wall tool is selected, from
    /// the anchor that is pending once the press was handled to the cursor.
    pub open spec fn frame_preview(self, edges: InputEdges, projected: Option<Point>) -> Option<
        Segment,
    > {
        if self.modes.next(edges).tool == BuildToolMode::WallTool {
            self.after_frame(edges, projected).wall_tool.segment_to_cursor(projected)
        } else {
            None
        }
    }

    /// The walls after a frame, given the walls before it.
    pub open spec fn walls_after_frame(
        self,
        walls: Seq<Vertex>,
        edges: InputEdges,
        projected: Option<Point>,
    ) -> Seq<Vertex> {
        walls + committed_vertices(self.frame_commit(edges, projected))
    }

    /// The controller at start-up, with a wall tool on a grid of cell size
    /// `cell`.
    pub fn new(cell: i64) -> (controller: BuildController)
        requires
            cell > 0,
        ensures
            controller.modes == Modes::initial(),
            controller.wall_tool.cell == cell,
            controller.wall_tool.pending.anchor is None,
            controller.wf(),
    {
        BuildController { modes: Modes::new(), wall_tool: WallTool::new(cell) }
    }

    /// Whether the controller is sound.
    pub fn is_wf(&self) -> (ok: bool)
        ensures
            ok == self.wf(),
    {
        let anchor_fits: bool = match (self.wall_tool.pending.anchor, self.modes.tool) {
            (Some(_), BuildToolMode::NoTool) => false,
            _ => true,
        };
        self.modes.is_wf() && self.wall_tool.is_wf() && anchor_fits
    }

    /// One frame. `edges` are the actions whose press began in it,
    /// `projected` is the projector's answer for the cursor, and `walls` are
    /// those of the ship that is built on.
    ///
    /// The modes move first. If the wall tool is not selected after that, a
    /// pending anchor is dropped and the walls stay as they are. If it is, a
    /// press of the primary action is handled by it, and the preview is
    /// taken from what is pending then.
    pub fn frame(
        &mut self,
        edges: &InputEdges,
        projected: Option<Point>,
        walls: &mut ShipWalls,
    ) -> (report: FrameReport)
        requires
            old(self).wf(),
        ensures
            *final(self) == old(self).after_frame(*edges, projected),
            final(walls)@ == old(self).walls_after_frame(old(walls)@, *edges, projected),
            report.commit == old(self).frame_commit(*edges, projected),
            report.preview == old(self).frame_preview(*edges, projected),
            final(self).wf(),
            old(walls).wf() ==> final(walls).wf(),
    {
        self.modes = self.modes.step(edges);
        let mut commit: Option<Segment> = None;
        let mut preview: Option<Segment> = None;
        match self.modes.tool {
            BuildToolMode::NoTool => {
                self.wall_tool.discard();
            },
            BuildToolMode::WallTool => {
                if edges.primary_action {
                    match self.wall_tool.press(projected, walls) {
                        PressOutcome::Committed(segment) => {
                            commit = Some(segment);
                        },
                        _ => {},
                    }
                }
                preview = self.wall_tool.preview(projected);
            },
        }
        FrameReport { commit, preview }
    }
}

/// A frame keeps the controller sound.
pub proof fn lemma_frame_wf(controller: BuildController, edges: InputEdges, projected: Option<Point>)
    requires
        controller.wf(),
    ensures
        controller.after_frame(edges, projected).wf(),
{
    let cell = controller.wall_tool.cell;
    if let Some(point) = projected {
        if snappable(point, cell) {
            lemma_snap_idempotent(point, cell);
        }
    }
}

/// Deselecting, and toggling out of building, both leave the wall tool.
pub proof fn lemma_exits_leave_wall_tool(modes: Modes, edges: InputEdges)
    requires
        modes.wf(),
        modes.tool == BuildToolMode::WallTool,
        edges.deselect_tool || edges.toggle_build,
    ensures
        modes.next(edges).tool == BuildToolMode::NoTool,
        edges.toggle_build ==> modes.next(edges).play == PlayMode::Flying,
{
}

/// A frame that begins while flying, or in the menu, touches no wall: going
/// over to building selects no tool, so nothing is merged, shown or left
/// pending in that frame.
pub proof fn lemma_entering_building_touches_nothing(
    controller: BuildController,
    walls: Seq<Vertex>,
    edges: InputEdges,
    projected: Option<Point>,
)
    requires
        controller.wf(),
        controller.modes.play == PlayMode::Flying,
    ensures
        controller.after_frame(edges, projected).wall_tool == controller.wall_tool,
        controller.after_frame(edges, projected).modes.tool == BuildToolMode::NoTool,
        controller.frame_commit(edges, projected) is None,
        controller.frame_preview(edges, projected) is None,
        controller.walls_after_frame(walls, edges, projected) == walls,
{
}

/// A frame without a press, after which the wall tool is still selected,
/// changes neither the tool nor the walls.
pub proof fn lemma_frame_without_press(
    controller: BuildController,
    walls: Seq<Vertex>,
    edges: InputEdges,
    projected: Option<Point>,
)
    requires
        controller.wf(),
        !edges.primary_action,
        controller.modes.next(edges).tool == BuildToolMode::WallTool,
    ensures
        controller.after_frame(edges, projected).wall_tool == controller.wall_tool,
        controller.walls_after_frame(walls, edges, projected) == walls,
{
}

/// Two presses make one wall. Where the wall tool is selected in the frames
/// of both presses, no anchor waits before the first, and the cursor has a
/// grid node each time, the first press merges nothing and sets the anchor,
/// and the second appends exactly the segment between the two nodes and
/// leaves no anchor.
pub proof fn lemma_two_presses_make_one_wall(
    controller: BuildController,
    walls: Seq<Vertex>,
    first: InputEdges,
    second: InputEdges,
    a: Point,
    b: Point,
)
    requires
        controller.wf(),
        controller.wall_tool.pending.anchor is None,
        first.primary_action,
        second.primary_action,
        controller.modes.next(first).tool == BuildToolMode::WallTool,
        controller.modes.next(first).next(second).tool == BuildToolMode::WallTool,
        snappable(a, controller.wall_tool.cell),
        snappable(b, controller.wall_tool.cell),
    ensures
        ({
            let cell = controller.wall_tool.cell;
            let wall = Segment { start: snapped(a, cell), end: snapped(b, cell) };
            let between = controller.after_frame(first, Some(a));
            let after = between.after_frame(second, Some(b));
            let walls_between = controller.walls_after_frame(walls, first, Some(a));
            &&& between.wall_tool.pending.anchor == Some(wall.start)
            &&& walls_between == walls
            &&& between.frame_commit(second, Some(b)) == Some(wall)
            &&& between.walls_after_frame(walls_between, second, Some(b)) == walls
                + wall.vertices()
            &&& after.wall_tool.pending.anchor is None
            &&& after.modes.tool == BuildToolMode::WallTool
        }),
{
}

/// An anchor is never merged when the tool is left. After a press that set
/// the anchor, a frame whose transitions leave the wall tool, whatever else
/// happens in it, drops the anchor, shows nothing, and leaves the walls as
/// they were before the press.
pub proof fn lemma_leaving_drops_the_anchor(
    controller: BuildController,
    walls: Seq<Vertex>,
    press: InputEdges,
    exit: InputEdges,
    a: Point,
    projected: Option<Point>,
)
    requires
        controller.wf(),
        controller.wall_tool.pending.anchor is None,
        press.primary_action,
        controller.modes.next(press).tool == BuildToolMode::WallTool,
        snappable(a, controller.wall_tool.cell),
        controller.modes.next(press).next(exit).tool != BuildToolMode::WallTool,
    ensures
        ({
            let between = controller.after_frame(press, Some(a));
            let after = between.after_frame(exit, projected);
            let walls_between = controller.walls_after_frame(walls, press, Some(a));
            &&& between.wall_tool.pending.anchor is Some
            &&& after.wall_tool.pending.anchor is None
            &&& between.frame_commit(exit, projected) is None
            &&& between.frame_preview(exit, projected) is None
            &&& between.walls_after_frame(walls_between, exit, projected) == walls
        }),
{
}

/// A press without a cursor changes nothing: in a frame that brings no
/// other edge than the primary action, and for which the projector has no
/// position, the modes, the anchor and the walls all stay as they are.
pub proof fn lemma_press_without_cursor(
    controller: BuildController,
    walls: Seq<Vertex>,
    edges: InputEdges,
)
    requires
        controller.wf(),
        edges.primary_action,
        !edges.start_game,
        !edges.toggle_build,
        !edges.deselect_tool,
        !edges.select_wall_tool,
    ensures
        controller.after_frame(edges, None) == controller,
        controller.walls_after_frame(walls, edges, None) == walls,
        controller.frame_commit(edges, None) is None,
{
}

/// Whatever the frame, without a cursor nothing is merged.
pub proof fn lemma_no_cursor_no_commit(
    controller: BuildController,
    walls: Seq<Vertex>,
    edges: InputEdges,
)
    ensures
        controller.frame_commit(edges, None) is None,
        controller.frame_preview(edges, None) is None,
        controller.walls_after_frame(walls, edges, None) == walls,
{
}

} // verus!
