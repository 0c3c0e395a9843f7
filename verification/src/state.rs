//! The composite navigation state and the buffer of queued requests.

use vstd::prelude::*;

verus! {

/// Top-level mode of the application. Exactly one is active at any time.
#[derive(Clone, Copy, PartialEq, Eq, Debug, Hash, Structural)]
pub enum GameState {
    Splash,
    Menu,
    Game,
    Pause,
}

/// Sub-screen of the menu. `Disabled` while the top-level mode is not `Menu`.
#[derive(Clone, Copy, PartialEq, Eq, Debug, Hash, Structural)]
pub enum MenuState {
    MainMenu,
    Settings,
    Disabled,
}

/// Sub-screen of the pause mode. `Disabled` while the top-level mode is not
/// `Pause`.
#[derive(Clone, Copy, PartialEq, Eq, Debug, Hash, Structural)]
pub enum PauseState {
    PauseMenu,
    Settings,
    Disabled,
}

impl Default for GameState {
    fn default() -> (s: GameState)
        ensures
            s == GameState::Splash,
    {
        GameState::Splash
    }
}

impl Default for MenuState {
    fn default() -> (s: MenuState)
        ensures
            s == MenuState::Disabled,
    {
        MenuState::Disabled
    }
}

impl Default for PauseState {
    fn default() -> (s: PauseState)
        ensures
            s == PauseState::Disabled,
    {
        PauseState::Disabled
    }
}

/// The full navigation position: top-level mode and both sub-states.
#[derive(Clone, Copy, PartialEq, Eq, Debug, Hash, Structural)]
pub struct CompositeState {
    pub game: GameState,
    pub menu: MenuState,
    pub pause: PauseState,
}

impl CompositeState {
    /// The state in which the application starts.
    pub open spec fn initial() -> CompositeState {
        CompositeState {
            game: GameState::Splash,
            menu: MenuState::Disabled,
            pause: PauseState::Disabled,
        }
    }

    /// A sub-state is enabled exactly while its parent mode is active.
    pub open spec fn consistent(self) -> bool {
        &&& (self.menu != MenuState::Disabled <==> self.game == GameState::Menu)
        &&& (self.pause != PauseState::Disabled <==> self.game == GameState::Pause)
    }

    /// The composite state with these three slots.
    pub fn new(game: GameState, menu: MenuState, pause: PauseState) -> (s: CompositeState)
        ensures
            s == (CompositeState { game, menu, pause }),
    {
        CompositeState { game, menu, pause }
    }

    /// Whether each sub-state is enabled exactly while its parent mode is
    /// active.
    pub fn is_consistent(&self) -> (b: bool)
        ensures
            b == self.consistent(),
    {
        let menu_on = self.menu != MenuState::Disabled;
        let pause_on = self.pause != PauseState::Disabled;
        menu_on == (self.game == GameState::Menu) && pause_on == (self.game == GameState::Pause)
    }
}

impl Default for CompositeState {
    fn default() -> (s: CompositeState)
        ensures
            s == CompositeState::initial(),
    {
        CompositeState {
            game: GameState::Splash,
            menu: MenuState::Disabled,
            pause: PauseState::Disabled,
        }
    }
}

} // verus!
