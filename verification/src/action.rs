//! Triggers, the transition table, and the requests that a trigger queues.

use vstd::prelude::*;
use crate::state::{CompositeState, GameState, MenuState, PauseState};

verus! {

/// Actions of the buttons on the menu screens.
#[derive(Clone, Copy, PartialEq, Eq, Debug, Structural)]
pub enum MenuButtonAction {
    BackToMenu,
    NewGame,
}

/// Actions of the buttons on the pause screens.
#[derive(Clone, Copy, PartialEq, Eq, Debug, Structural)]
pub enum PauseButtonAction {
    BackToMenu,
    QuitToTitle,
    Resume,
}

/// What a button does when it is pressed. Attached to the button when it is
/// built and never changed afterwards.
#[derive(Clone, Copy, PartialEq, Eq, Debug, Structural)]
pub enum ButtonAction {
    Menu(MenuButtonAction),
    Pause(PauseButtonAction),
    Quit,
    Settings,
}

/// Interaction of the pointer with a UI element, reported when it changes.
#[derive(Clone, Copy, PartialEq, Eq, Debug, Structural)]
pub enum Interaction {
    Pressed,
    Hovered,
    /// Neither pressed nor hovered.
    Idle,
}

/// An event that may move the state machine.
#[derive(Clone, Copy, PartialEq, Eq, Debug, Structural)]
pub enum Trigger {
    /// The splash countdown has run out.
    TimerElapsed,
    /// A button carrying this action went to `Pressed`.
    Pressed(ButtonAction),
    /// The escape key went down.
    Escape,
}

/// What a valid trigger asks for.
#[derive(Clone, Copy, PartialEq, Eq, Debug, Structural)]
pub enum Effect {
    /// Nothing changes.
    Stay,
    /// The composite state becomes this one at the next tick boundary.
    Goto(CompositeState),
    /// The process ends.
    Exit,
}

/// A fatal defect in the wiring of the screens. Neither kind is recoverable:
/// the caller is expected to abort with the context that the error carries.
#[derive(Clone, Copy, PartialEq, Eq, Debug, Structural)]
#[allow(inconsistent_fields)]
pub enum NavError {
    /// The trigger has no entry in the transition table for this state.
    InvalidTransition { trigger: Trigger, state: CompositeState },
    /// A settings screen was asked for under a mode that has none.
    InvalidContext { state: GameState },
}

/// The transition table. `None` means that the trigger is not valid in the
/// state. A slot of the composite state that a row does not name keeps its
/// value.
pub open spec fn transition(s: CompositeState, t: Trigger) -> Option<Effect> {
    match (s.game, s.menu, s.pause, t) {
        (_, _, _, Trigger::Pressed(ButtonAction::Quit)) => Some(Effect::Exit),
        (GameState::Splash, _, _, Trigger::TimerElapsed) => Some(
            Effect::Goto(CompositeState { game: GameState::Menu, menu: MenuState::MainMenu, ..s }),
        ),
        (GameState::Splash, _, _, Trigger::Escape) => Some(Effect::Stay),
        (
            GameState::Menu,
            MenuState::MainMenu,
            _,
            Trigger::Pressed(ButtonAction::Menu(MenuButtonAction::NewGame)),
        ) => Some(
            Effect::Goto(CompositeState { game: GameState::Game, menu: MenuState::Disabled, ..s }),
        ),
        (GameState::Menu, MenuState::MainMenu, _, Trigger::Pressed(ButtonAction::Settings)) => Some(
            Effect::Goto(CompositeState { game: GameState::Menu, menu: MenuState::Settings, ..s }),
        ),
        (GameState::Menu, MenuState::MainMenu, _, Trigger::Escape) => Some(Effect::Stay),
        (
            GameState::Menu,
            MenuState::Settings,
            _,
            Trigger::Pressed(ButtonAction::Menu(MenuButtonAction::BackToMenu)),
        ) => Some(
            Effect::Goto(CompositeState { game: GameState::Menu, menu: MenuState::MainMenu, ..s }),
        ),
        (GameState::Menu, MenuState::Settings, _, Trigger::Escape) => Some(
            Effect::Goto(CompositeState { game: GameState::Menu, menu: MenuState::MainMenu, ..s }),
        ),
        (GameState::Game, _, _, Trigger::Escape) => Some(
            Effect::Goto(
                CompositeState { game: GameState::Pause, pause: PauseState::PauseMenu, ..s },
            ),
        ),
        (
            GameState::Pause,
            _,
            PauseState::PauseMenu,
            Trigger::Pressed(ButtonAction::Pause(PauseButtonAction::Resume)),
        ) => Some(
            Effect::Goto(CompositeState { game: GameState::Game, pause: PauseState::Disabled, ..s }),
        ),
        (GameState::Pause, _, PauseState::PauseMenu, Trigger::Escape) => Some(
            Effect::Goto(CompositeState { game: GameState::Game, pause: PauseState::Disabled, ..s }),
        ),
        (GameState::Pause, _, PauseState::PauseMenu, Trigger::Pressed(ButtonAction::Settings)) => Some(
            Effect::Goto(
                CompositeState { game: GameState::Pause, pause: PauseState::Settings, ..s },
            ),
        ),
        (
            GameState::Pause,
            _,
            PauseState::Settings,
            Trigger::Pressed(ButtonAction::Pause(PauseButtonAction::BackToMenu)),
        ) => Some(
            Effect::Goto(
                CompositeState { game: GameState::Pause, pause: PauseState::PauseMenu, ..s },
            ),
        ),
        (GameState::Pause, _, PauseState::Settings, Trigger::Escape) => Some(
            Effect::Goto(
                CompositeState { game: GameState::Pause, pause: PauseState::PauseMenu, ..s },
            ),
        ),
        (
            GameState::Pause,
            _,
            PauseState::PauseMenu,
            Trigger::Pressed(ButtonAction::Pause(PauseButtonAction::QuitToTitle)),
        ) => Some(
            Effect::Goto(
                CompositeState {
                    game: GameState::Menu,
                    menu: MenuState::MainMenu,
                    pause: PauseState::Disabled,
                },
            ),
        ),
        _ => None,
    }
}

/// The requests queued during one tick: the double buffer of the state
/// machine. Readers of the current state never see what is written here
/// until the buffer is applied at the tick boundary.
#[derive(Clone, Copy, PartialEq, Eq, Debug, Structural)]
pub struct Requests {
    /// The composite state to move to. A later write replaces an earlier one.
    pub next: Option<CompositeState>,
    /// Whether the process was asked to end.
    pub exit: bool,
}

impl Requests {
    /// The buffer with nothing queued.
    pub open spec fn empty() -> Requests {
        Requests { next: None, exit: false }
    }

    /// The buffer after one more effect has been recorded in it.
    pub open spec fn after(self, e: Effect) -> Requests {
        match e {
            Effect::Stay => self,
            Effect::Goto(target) => Requests { next: Some(target), ..self },
            Effect::Exit => Requests { exit: true, ..self },
        }
    }

    /// A buffer with nothing queued.
    pub fn new() -> (r: Requests)
        ensures
            r == Requests::empty(),
    {
        Requests { next: None, exit: false }
    }

    /// Queues `target` as the next composite state.
    pub fn set(&mut self, target: CompositeState)
        ensures
            *final(self) == old(self).after(Effect::Goto(target)),
    {
        self.next = Some(target);
    }

    /// Queues the end of the process.
    pub fn request_exit(&mut self)
        ensures
            *final(self) == old(self).after(Effect::Exit),
    {
        self.exit = true;
    }

    /// Records an effect.
    pub fn record(&mut self, e: Effect)
        ensures
            *final(self) == old(self).after(e),
    {
        match e {
            Effect::Stay => {},
            Effect::Goto(target) => self.set(target),
            Effect::Exit => self.request_exit(),
        }
    }
}

/// What the queued requests make of the presses among `interactions`, taken
/// in order against the unchanged current state `s`: the buffer after all of
/// them, or the error of the first press that the table does not allow.
pub open spec fn route_presses(
    s: CompositeState,
    interactions: Seq<(Interaction, ButtonAction)>,
    queued: Requests,
) -> Result<Requests, NavError>
    decreases interactions.len(),
{
    if interactions.len() == 0 {
        Ok(queued)
    } else if interactions[0].0 != Interaction::Pressed {
        route_presses(s, interactions.drop_first(), queued)
    } else {
        let trigger = Trigger::Pressed(interactions[0].1);
        match transition(s, trigger) {
            None => Err(NavError::InvalidTransition { trigger, state: s }),
            Some(e) => route_presses(s, interactions.drop_first(), queued.after(e)),
        }
    }
}

} // verus!
