//! The named actions that the player's input is read as, and the edges of a
//! frame gathered from them.

use vstd::prelude::*;
use crate::mode::InputEdges;

verus! {

/// What the player can do with the ship.
#[derive(Clone, Copy, Debug, PartialEq, Eq, Hash, Structural)]
pub enum PlayerAction {
    Forward,
    RotateLeft,
    RotateRight,
    Fire,
    ToggleBuild,
}

/// What the player can do with the build tools.
#[derive(Clone, Copy, Debug, PartialEq, Eq, Hash, Structural)]
pub enum BuildAction {
    DeselectTool,
    SelectWallTool,
}

/// Whether `action` is among `actions`.
pub fn has_player_action(actions: &Vec<PlayerAction>, action: PlayerAction) -> (found: bool)
    ensures
        found == actions@.contains(action),
{
    let mut i: usize = 0;
    while i < actions.len()
        invariant
            i <= actions@.len(),
            forall|k: int| 0 <= k < i ==> actions@[k] != action,
        decreases actions@.len() - i,
    {
        if actions[i] == action {
            return true;
        }
        i += 1;
    }
    false
}

/// Whether `action` is among `actions`.
pub fn has_build_action(actions: &Vec<BuildAction>, action: BuildAction) -> (found: bool)
    ensures
        found == actions@.contains(action),
{
    let mut i: usize = 0;
    while i < actions.len()
        invariant
            i <= actions@.len(),
            forall|k: int| 0 <= k < i ==> actions@[k] != action,
        decreases actions@.len() - i,
    {
        if actions[i] == action {
            return true;
        }
        i += 1;
    }
    false
}

/// The edges of a frame, given the actions whose press began in it.
pub open spec fn edges_from(
    start_game: bool,
    player: Seq<PlayerAction>,
    build: Seq<BuildAction>,
    primary_action: bool,
) -> InputEdges {
    InputEdges {
        start_game,
        toggle_build: player.contains(PlayerAction::ToggleBuild),
        deselect_tool: build.contains(BuildAction::DeselectTool),
        select_wall_tool: build.contains(BuildAction::SelectWallTool),
        primary_action,
    }
}

/// Gathers the edges of a frame: the request to start the game, the player
/// and build actions whose press began in this frame, and whether the press
/// of the primary action did.
pub fn gather_edges(
    start_game: bool,
    player: &Vec<PlayerAction>,
    build: &Vec<BuildAction>,
    primary_action: bool,
) -> (edges: InputEdges)
    ensures
        edges == edges_from(start_game, player@, build@, primary_action),
{
    InputEdges {
        start_game,
        toggle_build: has_player_action(player, PlayerAction::ToggleBuild),
        deselect_tool: has_build_action(build, BuildAction::DeselectTool),
        select_wall_tool: has_build_action(build, BuildAction::SelectWallTool),
        primary_action,
    }
}

} // verus!
