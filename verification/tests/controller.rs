use kataster::controller::{BuildController, FrameReport};
use kataster::grid::Point;
use kataster::mode::{AppMode, BuildToolMode, InputEdges, Modes, PlayMode};
use kataster::outline::{Segment, ShipWalls};
use kataster::tool::{PendingPath, WallTool};

fn pt(x: i64, y: i64) -> Point {
    Point { x, y }
}

fn quiet() -> InputEdges {
    InputEdges {
        start_game: false,
        toggle_build: false,
        deselect_tool: false,
        select_wall_tool: false,
        primary_action: false,
    }
}

fn start() -> InputEdges {
    InputEdges { start_game: true, ..quiet() }
}

fn toggle() -> InputEdges {
    InputEdges { toggle_build: true, ..quiet() }
}

fn select() -> InputEdges {
    InputEdges { select_wall_tool: true, ..quiet() }
}

fn deselect() -> InputEdges {
    InputEdges { deselect_tool: true, ..quiet() }
}

fn press() -> InputEdges {
    InputEdges { primary_action: true, ..quiet() }
}

const NOTHING: FrameReport = FrameReport { commit: None, preview: None };

/// A controller with the wall tool selected, and a ship's walls.
fn at_the_wall_tool(cell: i64) -> (BuildController, ShipWalls) {
    let mut controller = BuildController::new(cell);
    let mut walls = ShipWalls::hull();
    assert_eq!(controller.frame(&start(), None, &mut walls), NOTHING);
    assert_eq!(controller.frame(&toggle(), None, &mut walls), NOTHING);
    assert_eq!(controller.frame(&select(), None, &mut walls), NOTHING);
    assert_eq!(controller.modes.tool, BuildToolMode::WallTool);
    (controller, walls)
}

#[test]
fn controller_begins_idle_in_the_menu() {
    let controller = BuildController::new(20);
    assert_eq!(controller.modes, Modes::new());
    assert_eq!(controller.wall_tool, WallTool::new(20));
    assert!(controller.is_wf());
}

#[test]
fn presses_at_two_cursors_append_their_wall() {
    let (mut controller, mut walls) = at_the_wall_tool(20);
    let prior = walls.points();

    let first = controller.frame(&press(), Some(pt(103, 58)), &mut walls);
    assert_eq!(first.commit, None);
    assert_eq!(first.preview, Some(Segment { start: pt(100, 60), end: pt(100, 60) }));
    assert_eq!(controller.wall_tool.pending.anchor, Some(pt(100, 60)));
    assert_eq!(walls.points(), prior);

    let second = controller.frame(&press(), Some(pt(207, 12)), &mut walls);
    assert_eq!(second.commit, Some(Segment { start: pt(100, 60), end: pt(200, 20) }));
    assert_eq!(second.preview, None);
    assert_eq!(controller.wall_tool.pending.anchor, None);

    let mut expected = prior.clone();
    expected.extend([pt(100, 60), pt(200, 20)]);
    assert_eq!(walls.points(), expected);
    assert_eq!(controller.modes.tool, BuildToolMode::WallTool);
}

#[test]
fn frames_between_the_presses_only_move_the_preview() {
    let (mut controller, mut walls) = at_the_wall_tool(20);
    controller.frame(&press(), Some(pt(0, 0)), &mut walls);
    for x in [11i64, 29, 31, 90] {
        let report = controller.frame(&quiet(), Some(pt(x, 0)), &mut walls);
        assert_eq!(report.commit, None);
        let node = pt((x + 10) / 20 * 20, 0);
        assert_eq!(report.preview, Some(Segment { start: pt(0, 0), end: node }));
        assert_eq!(walls.len(), 5);
    }
    // With the cursor off the view there is nothing to show, and the anchor waits.
    assert_eq!(controller.frame(&quiet(), None, &mut walls), NOTHING);
    assert_eq!(controller.wall_tool.pending.anchor, Some(pt(0, 0)));
    let report = controller.frame(&press(), Some(pt(60, 0)), &mut walls);
    assert_eq!(report.commit, Some(Segment { start: pt(0, 0), end: pt(60, 0) }));
    assert_eq!(walls.len(), 7);
}

#[test]
fn first_press_at_cell_ten() {
    let mut controller = BuildController::new(10);
    let mut walls = ShipWalls::hull();
    controller.frame(&start(), None, &mut walls);
    assert_eq!(controller.modes.app, AppMode::Game);
    controller.frame(&toggle(), None, &mut walls);
    assert_eq!(controller.modes.play, PlayMode::Building);
    controller.frame(&select(), None, &mut walls);
    assert_eq!(controller.modes.tool, BuildToolMode::WallTool);

    let report = controller.frame(&press(), Some(pt(10, 10)), &mut walls);
    assert_eq!(report.commit, None);
    assert_eq!(controller.wall_tool.pending.anchor, Some(pt(10, 10)));
    assert_eq!(walls.points(), ShipWalls::hull().points());
}

#[test]
fn deselect_clears_the_anchor_and_the_next_press_starts_anew() {
    let (mut controller, mut walls) = at_the_wall_tool(10);
    controller.frame(&press(), Some(pt(10, 10)), &mut walls);

    assert_eq!(controller.frame(&deselect(), Some(pt(10, 10)), &mut walls), NOTHING);
    assert_eq!(controller.modes.tool, BuildToolMode::NoTool);
    assert_eq!(controller.wall_tool.pending.anchor, None);
    assert_eq!(walls.points(), ShipWalls::hull().points());

    controller.frame(&select(), Some(pt(10, 10)), &mut walls);
    let report = controller.frame(&press(), Some(pt(30, 10)), &mut walls);
    assert_eq!(report.commit, None);
    assert_eq!(controller.wall_tool.pending.anchor, Some(pt(30, 10)));
    assert_eq!(walls.points(), ShipWalls::hull().points());
}

#[test]
fn leaving_building_clears_the_anchor() {
    let (mut controller, mut walls) = at_the_wall_tool(20);
    controller.frame(&press(), Some(pt(40, 40)), &mut walls);
    assert_eq!(controller.frame(&toggle(), Some(pt(80, 80)), &mut walls), NOTHING);
    assert_eq!(controller.modes.play, PlayMode::Flying);
    assert_eq!(controller.modes.tool, BuildToolMode::NoTool);
    assert_eq!(controller.wall_tool.pending.anchor, None);
    assert_eq!(walls.len(), 5);
}

#[test]
fn press_in_the_frame_of_a_deselect_commits_nothing() {
    let (mut controller, mut walls) = at_the_wall_tool(20);
    controller.frame(&press(), Some(pt(40, 40)), &mut walls);
    let both = InputEdges { deselect_tool: true, primary_action: true, ..quiet() };
    assert_eq!(controller.frame(&both, Some(pt(80, 80)), &mut walls), NOTHING);
    assert_eq!(controller.wall_tool.pending.anchor, None);
    assert_eq!(walls.len(), 5);
}

#[test]
fn press_in_the_frame_of_a_toggle_commits_nothing() {
    let (mut controller, mut walls) = at_the_wall_tool(20);
    controller.frame(&press(), Some(pt(40, 40)), &mut walls);
    let both = InputEdges { toggle_build: true, primary_action: true, ..quiet() };
    assert_eq!(controller.frame(&both, Some(pt(80, 80)), &mut walls), NOTHING);
    assert_eq!(controller.wall_tool.pending.anchor, None);
    assert_eq!(walls.len(), 5);
}

#[test]
fn press_in_the_frame_of_a_select_is_a_first_press() {
    let (mut controller, mut walls) = at_the_wall_tool(20);
    controller.frame(&deselect(), None, &mut walls);
    let both = InputEdges { select_wall_tool: true, primary_action: true, ..quiet() };
    let report = controller.frame(&both, Some(pt(61, 19)), &mut walls);
    assert_eq!(report.commit, None);
    assert_eq!(report.preview, Some(Segment { start: pt(60, 20), end: pt(60, 20) }));
    assert_eq!(controller.wall_tool.pending.anchor, Some(pt(60, 20)));
}

#[test]
fn press_without_the_wall_tool_does_nothing() {
    let mut walls = ShipWalls::hull();
    let mut controller = BuildController::new(20);
    for edges in [quiet(), start(), toggle()] {
        controller.frame(&edges, None, &mut walls);
        let before = controller;
        assert_eq!(controller.frame(&press(), Some(pt(40, 40)), &mut walls), NOTHING);
        assert_eq!(controller, before);
        assert_eq!(walls.len(), 5);
    }
}

#[test]
fn press_without_a_cursor_changes_nothing() {
    let (mut controller, mut walls) = at_the_wall_tool(20);
    let before = controller;
    assert_eq!(controller.frame(&press(), None, &mut walls), NOTHING);
    assert_eq!(controller, before);
    assert_eq!(walls.len(), 5);

    controller.frame(&press(), Some(pt(40, 40)), &mut walls);
    let waiting = controller;
    assert_eq!(controller.frame(&press(), None, &mut walls), NOTHING);
    assert_eq!(controller, waiting);
    assert_eq!(walls.points(), ShipWalls::hull().points());
}

#[test]
fn is_wf_rejects_an_anchor_without_the_wall_tool() {
    let (controller, _) = at_the_wall_tool(20);
    assert!(controller.is_wf());
    let waiting = WallTool { cell: 20, pending: PendingPath { anchor: Some(pt(20, 20)) } };
    assert!(BuildController { modes: controller.modes, wall_tool: waiting }.is_wf());
    assert!(!BuildController { modes: Modes::new(), wall_tool: waiting }.is_wf());
    let flying_with_tool = Modes { app: AppMode::Game, play: PlayMode::Flying, tool: BuildToolMode::WallTool };
    assert!(!BuildController { modes: flying_with_tool, wall_tool: WallTool::new(20) }.is_wf());
    let no_grid = WallTool { cell: 0, pending: PendingPath { anchor: None } };
    assert!(!BuildController { modes: Modes::new(), wall_tool: no_grid }.is_wf());
}

#[test]
fn controller_stays_sound_over_every_short_run() {
    let cursors = [None, Some(pt(7, -13)), Some(pt(i64::MAX, 0))];
    let mut reached = vec![BuildController::new(16)];
    for _ in 0..3 {
        let mut next = Vec::new();
        for controller in reached.iter() {
            for bits in 0u8..32 {
                let edges = InputEdges {
                    start_game: bits & 1 != 0,
                    toggle_build: bits & 2 != 0,
                    deselect_tool: bits & 4 != 0,
                    select_wall_tool: bits & 8 != 0,
                    primary_action: bits & 16 != 0,
                };
                for cursor in cursors.iter() {
                    let mut after = *controller;
                    let mut walls = ShipWalls::new();
                    let report = after.frame(&edges, *cursor, &mut walls);
                    assert!(after.is_wf());
                    assert_eq!(after.modes, controller.modes.step(&edges));
                    match report.commit {
                        Some(_) => assert_eq!(walls.len(), 2),
                        None => assert_eq!(walls.len(), 0),
                    }
                    if !next.contains(&after) {
                        next.push(after);
                    }
                }
            }
        }
        reached = next;
    }
}
