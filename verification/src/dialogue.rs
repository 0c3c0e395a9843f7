//! The dialogue of the game. It has no screen of its own yet.

use vstd::prelude::*;
use crate::state::{CompositeState, GameState};
use crate::tree::UiTree;

verus! {

/// Sets the dialogue up when the game starts. The dialogue shows nothing so
/// far: the UI is left as it is.
pub fn dialogue_setup_sys(ui: &mut UiTree)
    ensures
        final(ui)@ == old(ui)@,
{
}

/// The dialogue's part of the application.
pub struct DialoguePlugin;

impl DialoguePlugin {
    /// Enter hook: where the change from `from` to `to` enters the game,
    /// the dialogue is set up.
    pub fn enter(from: &CompositeState, to: &CompositeState, ui: &mut UiTree)
        ensures
            final(ui)@ == old(ui)@,
    {
        if to.game == GameState::Game && from.game != GameState::Game {
            dialogue_setup_sys(ui);
        }
    }
}

} // verus!
