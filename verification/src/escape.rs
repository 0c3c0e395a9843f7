//! The escape key: what it does depends on where the player is.

use vstd::prelude::*;
use crate::action::{transition, NavError, Requests, Trigger};
use crate::pause::pause_setup_sys;
use crate::state::{CompositeState, GameState, MenuState, PauseState};

verus! {

/// Handles the escape key. `escape_just_pressed` says whether the key went
/// down in this tick; a key that is held does not count again.
///
/// Escape does nothing on the splash screen and on the main menu, leads from
/// a settings screen back to the menu above it, pauses the game and resumes
/// it from the pause menu. In a composite state that the table does not
/// know, nothing is queued and the error names the state.
pub fn pause_menu_listener_sys(
    escape_just_pressed: bool,
    state: &CompositeState,
    requests: &mut Requests,
) -> (r: Result<(), NavError>)
    ensures
        !escape_just_pressed ==> r is Ok && *final(requests) == *old(requests),
        escape_just_pressed ==> match transition(*state, Trigger::Escape) {
            Some(effect) => r is Ok && *final(requests) == old(requests).after(effect),
            None => r == Err::<(), NavError>(
                NavError::InvalidTransition { trigger: Trigger::Escape, state: *state },
            ) && *final(requests) == *old(requests),
        },
{
    if escape_just_pressed {
        match state.game {
            GameState::Game => {
                let mut target = CompositeState { game: GameState::Pause, ..*state };
                pause_setup_sys(&mut target);
                requests.set(target);
            },
            GameState::Menu => match state.menu {
                MenuState::MainMenu => {},
                MenuState::Settings => {
                    requests.set(
                        CompositeState {
                            game: GameState::Menu,
                            menu: MenuState::MainMenu,
                            pause: state.pause,
                        },
                    );
                },
                MenuState::Disabled => {
                    return Err(
                        NavError::InvalidTransition { trigger: Trigger::Escape, state: *state },
                    );
                },
            },
            GameState::Pause => match state.pause {
                PauseState::PauseMenu => {
                    requests.set(
                        CompositeState {
                            game: GameState::Game,
                            menu: state.menu,
                            pause: PauseState::Disabled,
                        },
                    );
                },
                PauseState::Settings => {
                    requests.set(
                        CompositeState {
                            game: GameState::Pause,
                            menu: state.menu,
                            pause: PauseState::PauseMenu,
                        },
                    );
                },
                PauseState::Disabled => {
                    return Err(
                        NavError::InvalidTransition { trigger: Trigger::Escape, state: *state },
                    );
                },
            },
            GameState::Splash => {},
        }
    }
    Ok(())
}

} // verus!
