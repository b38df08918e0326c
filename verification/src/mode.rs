//! The three layers of mode that decide what runs in a frame.
//!
//! The application is in the start menu or in the game. In the game the
//! player flies or builds. While building, at most one build tool is
//! selected. An inner layer is off its resting value only while the layer
//! around it is in the state that hosts it, and every transition keeps it so.

use vstd::prelude::*;

verus! {

/// The phase of the application.
#[derive(Clone, Copy, Debug, PartialEq, Eq, Structural)]
pub enum AppMode {
    StartMenu,
    Game,
}

/// What the player does while in the game.
#[derive(Clone, Copy, Debug, PartialEq, Eq, Structural)]
pub enum PlayMode {
    Flying,
    Building,
}

/// The build tool that is selected while building.
#[derive(Clone, Copy, Debug, PartialEq, Eq, Structural)]
pub enum BuildToolMode {
    NoTool,
    WallTool,
}

/// The input actions whose press began in this frame, and the request to
/// start the game.
#[derive(Clone, Copy, Debug, PartialEq, Eq, Structural)]
pub struct InputEdges {
    pub start_game: bool,
    pub toggle_build: bool,
    pub deselect_tool: bool,
    pub select_wall_tool: bool,
    pub primary_action: bool,
}

/// The three layers together.
#[derive(Clone, Copy, Debug, PartialEq, Eq, Structural)]
pub struct Modes {
    pub app: AppMode,
    pub play: PlayMode,
    pub tool: BuildToolMode,
}

impl Modes {
    /// A tool is selected only while building, and building happens only in
    /// the game.
    pub open spec fn wf(self) -> bool {
        &&& self.tool != BuildToolMode::NoTool ==> self.play == PlayMode::Building
        &&& self.play == PlayMode::Building ==> self.app == AppMode::Game
    }

    /// The modes at start-up: in the menu, flying, no tool.
    pub open spec fn initial() -> Modes {
        Modes { app: AppMode::StartMenu, play: PlayMode::Flying, tool: BuildToolMode::NoTool }
    }

    /// The application layer after a frame: the start request takes the menu
    /// to the game, and nothing leads back.
    pub open spec fn next_app(self, edges: InputEdges) -> AppMode {
        if self.app == AppMode::StartMenu && edges.start_game {
            AppMode::Game
        } else {
            self.app
        }
    }

    /// The play layer after a frame: looked at only in the game, where the
    /// toggle swaps flying and building.
    pub open spec fn next_play(self, edges: InputEdges) -> PlayMode {
        if self.app == AppMode::Game && edges.toggle_build {
            match self.play {
                PlayMode::Flying => PlayMode::Building,
                PlayMode::Building => PlayMode::Flying,
            }
        } else {
            self.play
        }
    }

    /// The tool layer after a frame. Whoever stops building has no tool.
    /// Otherwise the layer is looked at only while building: deselecting
    /// takes a selected tool away, and selecting the wall tool selects it
    /// where it is not selected yet.
    pub open spec fn next_tool(self, edges: InputEdges) -> BuildToolMode {
        if self.play != PlayMode::Building || self.next_play(edges) != PlayMode::Building {
            BuildToolMode::NoTool
        } else if self.tool != BuildToolMode::NoTool && edges.deselect_tool {
            BuildToolMode::NoTool
        } else if self.tool != BuildToolMode::WallTool && edges.select_wall_tool {
            BuildToolMode::WallTool
        } else {
            self.tool
        }
    }

    /// The modes after a frame with these edges. Each layer is decided from
    /// the modes as they were when the frame began.
    pub open spec fn next(self, edges: InputEdges) -> Modes {
        Modes {
            app: self.next_app(edges),
            play: self.next_play(edges),
            tool: self.next_tool(edges),
        }
    }

    /// The modes at start-up.
    pub fn new() -> (modes: Modes)
        ensures
            modes == Modes::initial(),
            modes.wf(),
    {
        Modes { app: AppMode::StartMenu, play: PlayMode::Flying, tool: BuildToolMode::NoTool }
    }

    /// Whether the layers fit together.
    pub fn is_wf(&self) -> (ok: bool)
        ensures
            ok == self.wf(),
    {
        let tool_fits: bool = match self.tool {
            BuildToolMode::NoTool => true,
            BuildToolMode::WallTool => self.play == PlayMode::Building,
        };
        let play_fits: bool = match self.play {
            PlayMode::Flying => true,
            PlayMode::Building => self.app == AppMode::Game,
        };
        tool_fits && play_fits
    }

    /// The application layer after a frame with these edges.
    pub fn app_transition(&self, edges: &InputEdges) -> (app: AppMode)
        ensures
            app == self.next_app(*edges),
    {
        match self.app {
            AppMode::StartMenu => if edges.start_game {
                AppMode::Game
            } else {
                AppMode::StartMenu
            },
            AppMode::Game => AppMode::Game,
        }
    }

    /// The play layer after a frame with these edges.
    pub fn play_transition(&self, edges: &InputEdges) -> (play: PlayMode)
        ensures
            play == self.next_play(*edges),
    {
        let in_game: bool = match self.app {
            AppMode::StartMenu => false,
            AppMode::Game => true,
        };
        if in_game && edges.toggle_build {
            match self.play {
                PlayMode::Flying => PlayMode::Building,
                PlayMode::Building => PlayMode::Flying,
            }
        } else {
            self.play
        }
    }

    /// The tool layer after a frame with these edges.
    pub fn tool_transition(&self, edges: &InputEdges) -> (tool: BuildToolMode)
        ensures
            tool == self.next_tool(*edges),
    {
        let was_building: bool = match self.play {
            PlayMode::Flying => false,
            PlayMode::Building => true,
        };
        let stays_building: bool = match self.play_transition(edges) {
            PlayMode::Flying => false,
            PlayMode::Building => true,
        };
        if !was_building || !stays_building {
            return BuildToolMode::NoTool;
        }
        let mut tool: BuildToolMode = self.tool;
        match self.tool {
            BuildToolMode::NoTool => {
                if edges.select_wall_tool {
                    tool = BuildToolMode::WallTool;
                }
            },
            BuildToolMode::WallTool => {
                if edges.deselect_tool {
                    tool = BuildToolMode::NoTool;
                }
            },
        }
        tool
    }

    /// One frame of mode transitions, from the outermost layer inwards.
    ///
    /// The layers must fit together when the frame begins; they do so again
    /// when it ends.
    pub fn step(&self, edges: &InputEdges) -> (after: Modes)
        requires
            self.wf(),
        ensures
            after == self.next(*edges),
            after.wf(),
    {
        let app: AppMode = self.app_transition(edges);
        let play: PlayMode = self.play_transition(edges);
        let tool: BuildToolMode = self.tool_transition(edges);
        Modes { app, play, tool }
    }

    /// The modes after a run of frames, the first of `frames` first.
    pub open spec fn run(self, frames: Seq<InputEdges>) -> Modes
        decreases frames.len(),
    {
        if frames.len() == 0 {
            self
        } else {
            self.run(frames.drop_last()).next(frames.last())
        }
    }
}

/// A frame of transitions keeps the layers fitting together.
pub proof fn lemma_next_wf(modes: Modes, edges: InputEdges)
    requires
        modes.wf(),
    ensures
        modes.next(edges).wf(),
{
}

/// Whatever edges arrive in whatever order, a tool is selected only while
/// building, and building happens only in the game: after every frame of a
/// run that began with fitting layers.
pub proof fn lemma_run_wf(modes: Modes, frames: Seq<InputEdges>)
    requires
        modes.wf(),
    ensures
        modes.run(frames).wf(),
        forall|n: int| 0 <= n <= frames.len() ==> (#[trigger] modes.run(frames.take(n))).wf(),
    decreases frames.len(),
{
    if frames.len() > 0 {
        lemma_run_wf(modes, frames.drop_last());
        lemma_next_wf(modes.run(frames.drop_last()), frames.last());
        assert forall|n: int| 0 <= n <= frames.len() implies (#[trigger] modes.run(
            frames.take(n),
        )).wf() by {
            if n < frames.len() {
                assert(frames.take(n) == frames.drop_last().take(n));
            } else {
                assert(frames.take(n) == frames);
            }
        }
    }
}

/// From start-up on, the layers fit together after every frame.
pub proof fn lemma_reachable_wf(frames: Seq<InputEdges>)
    ensures
        Modes::initial().run(frames).wf(),
{
    lemma_run_wf(Modes::initial(), frames);
}

} // verus!
