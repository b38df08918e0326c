//! The player's ship: what it is spawned with, how it is found among the
//! ships, and what the held actions make it do while flying.

use vstd::prelude::*;
use crate::grid::Point;
use crate::input::{has_player_action, PlayerAction};
use crate::mode::{AppMode, Modes, PlayMode};
use crate::outline::{spawn_hull, ShipWalls};

verus! {

/// The life points that a ship is spawned with.
pub const START_LIFE: u32 = 3;

/// The player whose ship is built on and shown in the display.
pub const LOCAL_PLAYER: u32 = 1;

/// A ship, as far as the rules here read it.
#[derive(Clone, Copy, Debug, PartialEq, Eq, Structural)]
pub struct Ship {
    /// Life points.
    pub life: u32,
    /// The player who controls the ship.
    pub player_id: u32,
}

/// An engine of a ship, at its place on the hull.
#[derive(Clone, Copy, Debug, PartialEq, Eq, Structural)]
pub struct ShipEngine {
    pub position: Point,
}

/// The place of the engine that a ship is spawned with: the middle of the
/// hull's rear side.
pub open spec fn spawn_engine_position() -> Point {
    Point { x: 0, y: -5i64 }
}

/// The local player's ship as it is spawned: with full life, the square
/// hull, and one engine.
pub fn spawn_ship() -> (spawned: (Ship, ShipWalls, ShipEngine))
    ensures
        spawned.0 == (Ship { life: START_LIFE, player_id: LOCAL_PLAYER }),
        spawned.1@ == spawn_hull(),
        spawned.1.wf(),
        spawned.2.position == spawn_engine_position(),
{
    let ship = Ship { life: START_LIFE, player_id: LOCAL_PLAYER };
    let engine = ShipEngine { position: Point { x: 0, y: -5 } };
    (ship, ShipWalls::hull(), engine)
}

/// Whether a ship is the local player's.
pub open spec fn is_local(ship: Ship) -> bool {
    ship.player_id == LOCAL_PLAYER
}

/// The answer to the search for the one local ship.
#[derive(Clone, Copy, Debug, PartialEq, Eq, Structural)]
pub enum ShipLookup {
    /// Exactly one ship is local: the one at this index.
    Unique(usize),
    /// No ship is local.
    NotFound,
    /// More than one ship is local.
    Multiple,
}

/// What `find_local_ship` answers for a list of ships.
pub open spec fn lookup_of(ships: Seq<Ship>, found: ShipLookup) -> bool {
    match found {
        ShipLookup::Unique(index) => {
            &&& index < ships.len()
            &&& is_local(ships[index as int])
            &&& forall|k: int| 0 <= k < ships.len() && k != index ==> !is_local(#[trigger] ships[k])
        },
        ShipLookup::NotFound => forall|k: int| 0 <= k < ships.len() ==> !is_local(#[trigger] ships[k]),
        ShipLookup::Multiple => exists|j: int, k: int|
            0 <= j < k < ships.len() && is_local(#[trigger] ships[j]) && is_local(
                #[trigger] ships[k],
            ),
    }
}

/// Finds the one local ship among `ships`. The three answers exclude each
/// other; what to do where the ship is missing or not alone is the
/// caller's decision.
pub fn find_local_ship(ships: &Vec<Ship>) -> (found: ShipLookup)
    ensures
        lookup_of(ships@, found),
{
    let mut found: ShipLookup = ShipLookup::NotFound;
    let mut i: usize = 0;
    while i < ships.len()
        invariant
            i <= ships@.len(),
            !(found is Multiple),
            lookup_of(ships@.take(i as int), found),
        decreases ships@.len() - i,
    {
        if ships[i].player_id == LOCAL_PLAYER {
            match found {
                ShipLookup::NotFound => {
                    found = ShipLookup::Unique(i);
                },
                _ => {
                    return ShipLookup::Multiple;
                },
            }
        }
        i += 1;
        proof {
            let before = ships@.take(i as int - 1);
            let now = ships@.take(i as int);
            assert forall|k: int| 0 <= k < before.len() implies now[k] == before[k] by {}
        }
    }
    assert(ships@.take(i as int) == ships@);
    found
}

/// The search has one answer: two answers that both fit a list of ships are
/// the same answer.
pub proof fn lemma_lookup_is_determined(ships: Seq<Ship>, a: ShipLookup, b: ShipLookup)
    requires
        lookup_of(ships, a),
        lookup_of(ships, b),
    ensures
        a == b,
{
}

/// What the held actions make the ship do in a frame.
#[derive(Clone, Copy, Debug, PartialEq, Eq, Structural)]
pub struct ShipControls {
    /// Whether the engine pushes.
    pub thrust: bool,
    /// The sense of turning: 1 to the left, -1 to the right, 0 for none.
    pub rotation: i8,
    /// Whether the cannon fires. The cannon's timer starts anew when it does.
    pub fire: bool,
}

/// What `ship_input` returns.
pub open spec fn controls_of(modes: Modes, held: Seq<PlayerAction>, cannon_ready: bool) -> Option<
    ShipControls,
> {
    if modes.app == AppMode::Game && modes.play == PlayMode::Flying {
        Some(
            ShipControls {
                thrust: held.contains(PlayerAction::Forward),
                rotation: if held.contains(PlayerAction::RotateLeft) {
                    1i8
                } else if held.contains(PlayerAction::RotateRight) {
                    -1i8
                } else {
                    0i8
                },
                fire: held.contains(PlayerAction::Fire) && cannon_ready,
            },
        )
    } else {
        None
    }
}

/// Reads the held actions as controls for the ship. The ship is steered
/// only while flying in the game; turning left wins over turning right;
/// the cannon fires only when its timer has run out.
pub fn ship_input(modes: &Modes, held: &Vec<PlayerAction>, cannon_ready: bool) -> (controls:
    Option<ShipControls>)
    ensures
        controls == controls_of(*modes, held@, cannon_ready),
{
    let flying_in_game: bool = match (modes.app, modes.play) {
        (AppMode::Game, PlayMode::Flying) => true,
        _ => false,
    };
    if !flying_in_game {
        return None;
    }
    let thrust: bool = has_player_action(held, PlayerAction::Forward);
    let rotation: i8 = if has_player_action(held, PlayerAction::RotateLeft) {
        1
    } else if has_player_action(held, PlayerAction::RotateRight) {
        -1
    } else {
        0
    };
    let fire: bool = has_player_action(held, PlayerAction::Fire) && cannon_ready;
    Some(ShipControls { thrust, rotation, fire })
}

} // verus!
