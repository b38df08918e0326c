use kataster::mode::{AppMode, BuildToolMode, InputEdges, Modes, PlayMode};

fn quiet() -> InputEdges {
    InputEdges {
        start_game: false,
        toggle_build: false,
        deselect_tool: false,
        select_wall_tool: false,
        primary_action: false,
    }
}

fn start() -> InputEdges {
    InputEdges { start_game: true, ..quiet() }
}

fn toggle() -> InputEdges {
    InputEdges { toggle_build: true, ..quiet() }
}

fn select() -> InputEdges {
    InputEdges { select_wall_tool: true, ..quiet() }
}

fn deselect() -> InputEdges {
    InputEdges { deselect_tool: true, ..quiet() }
}

fn building_with_wall_tool() -> Modes {
    Modes::new().step(&start()).step(&toggle()).step(&select())
}

#[test]
fn modes_begin_in_the_menu() {
    let modes = Modes::new();
    assert_eq!(modes.app, AppMode::StartMenu);
    assert_eq!(modes.play, PlayMode::Flying);
    assert_eq!(modes.tool, BuildToolMode::NoTool);
    assert!(modes.is_wf());
}

#[test]
fn start_toggle_select_reaches_the_wall_tool() {
    let in_game = Modes::new().step(&start());
    assert_eq!(in_game, Modes { app: AppMode::Game, play: PlayMode::Flying, tool: BuildToolMode::NoTool });
    let building = in_game.step(&toggle());
    assert_eq!(building, Modes { app: AppMode::Game, play: PlayMode::Building, tool: BuildToolMode::NoTool });
    let with_tool = building.step(&select());
    assert_eq!(with_tool, Modes { app: AppMode::Game, play: PlayMode::Building, tool: BuildToolMode::WallTool });
}

#[test]
fn nothing_leads_back_to_the_menu() {
    let in_game = Modes::new().step(&start());
    assert_eq!(in_game.step(&start()).app, AppMode::Game);
    assert_eq!(in_game.step(&quiet()).app, AppMode::Game);
    assert_eq!(in_game.step(&toggle()).app, AppMode::Game);
}

#[test]
fn toggle_is_not_read_in_the_menu() {
    let modes = Modes::new();
    assert_eq!(modes.step(&toggle()), modes);
    assert_eq!(modes.step(&select()), modes);
    // The start request and the toggle in one frame: the play layer still
    // sees the menu.
    let both = InputEdges { start_game: true, toggle_build: true, ..quiet() };
    assert_eq!(modes.step(&both), Modes { app: AppMode::Game, play: PlayMode::Flying, tool: BuildToolMode::NoTool });
}

#[test]
fn toggle_swaps_flying_and_building() {
    let flying = Modes::new().step(&start());
    let building = flying.step(&toggle());
    assert_eq!(building.play, PlayMode::Building);
    assert_eq!(building.step(&toggle()).play, PlayMode::Flying);
    assert_eq!(building.step(&quiet()).play, PlayMode::Building);
}

#[test]
fn tools_are_not_read_while_flying() {
    let flying = Modes::new().step(&start());
    assert_eq!(flying.step(&select()).tool, BuildToolMode::NoTool);
    // Toggle and select in one frame: the tool layer still sees flying.
    let both = InputEdges { toggle_build: true, select_wall_tool: true, ..quiet() };
    assert_eq!(flying.step(&both), Modes { app: AppMode::Game, play: PlayMode::Building, tool: BuildToolMode::NoTool });
}

#[test]
fn deselect_takes_the_tool_away() {
    let with_tool = building_with_wall_tool();
    let without = with_tool.step(&deselect());
    assert_eq!(without, Modes { app: AppMode::Game, play: PlayMode::Building, tool: BuildToolMode::NoTool });
    assert_eq!(without.step(&deselect()), without);
}

#[test]
fn select_and_deselect_in_one_frame() {
    let with_tool = building_with_wall_tool();
    let both = InputEdges { deselect_tool: true, select_wall_tool: true, ..quiet() };
    // With the tool selected only the deselect applies; without it only the select.
    let without = with_tool.step(&both);
    assert_eq!(without.tool, BuildToolMode::NoTool);
    assert_eq!(without.step(&both).tool, BuildToolMode::WallTool);
}

#[test]
fn select_keeps_a_selected_tool() {
    let with_tool = building_with_wall_tool();
    assert_eq!(with_tool.step(&select()), with_tool);
}

#[test]
fn leaving_building_takes_the_tool_away() {
    let with_tool = building_with_wall_tool();
    let flying = with_tool.step(&toggle());
    assert_eq!(flying, Modes { app: AppMode::Game, play: PlayMode::Flying, tool: BuildToolMode::NoTool });
    // Also where the same frame asks for the tool.
    let both = InputEdges { toggle_build: true, select_wall_tool: true, ..quiet() };
    assert_eq!(with_tool.step(&both), flying);
    // Coming back to building does not bring the tool back.
    assert_eq!(flying.step(&toggle()).tool, BuildToolMode::NoTool);
}

#[test]
fn layer_transitions_agree_with_step() {
    let states = [Modes::new(), Modes::new().step(&start()), Modes::new().step(&start()).step(&toggle()), building_with_wall_tool()];
    for modes in states.iter() {
        for bits in 0u8..32 {
            let edges = edges_of(bits);
            let after = modes.step(&edges);
            assert_eq!(after.app, modes.app_transition(&edges));
            assert_eq!(after.play, modes.play_transition(&edges));
            assert_eq!(after.tool, modes.tool_transition(&edges));
        }
    }
}

fn edges_of(bits: u8) -> InputEdges {
    InputEdges {
        start_game: bits & 1 != 0,
        toggle_build: bits & 2 != 0,
        deselect_tool: bits & 4 != 0,
        select_wall_tool: bits & 8 != 0,
        primary_action: bits & 16 != 0,
    }
}

fn fits(modes: &Modes) -> bool {
    (modes.tool == BuildToolMode::NoTool || modes.play == PlayMode::Building)
        && (modes.play == PlayMode::Flying || modes.app == AppMode::Game)
}

#[test]
fn layers_fit_after_every_frame_of_every_short_run() {
    let mut reached = vec![Modes::new()];
    for _ in 0..4 {
        let mut next = Vec::new();
        for modes in reached.iter() {
            for bits in 0u8..32 {
                let after = modes.step(&edges_of(bits));
                assert!(fits(&after));
                assert!(after.is_wf());
                if !next.contains(&after) {
                    next.push(after);
                }
            }
        }
        reached = next;
    }
    // Four states can be reached, and no other.
    assert_eq!(reached.len(), 4);
}

#[test]
fn is_wf_rejects_layers_that_do_not_fit() {
    assert!(!Modes { app: AppMode::StartMenu, play: PlayMode::Building, tool: BuildToolMode::NoTool }.is_wf());
    assert!(!Modes { app: AppMode::Game, play: PlayMode::Flying, tool: BuildToolMode::WallTool }.is_wf());
    assert!(!Modes { app: AppMode::StartMenu, play: PlayMode::Flying, tool: BuildToolMode::WallTool }.is_wf());
    assert!(Modes { app: AppMode::Game, play: PlayMode::Building, tool: BuildToolMode::WallTool }.is_wf());
}
