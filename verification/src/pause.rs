//! The pause menu: its screen and the routing of its buttons.

use vstd::prelude::*;
use crate::action::{
    route_presses, ButtonAction, Interaction, NavError, PauseButtonAction, Requests, Trigger,
};
use crate::node::{Layout, NodeKind, ScreenTag, UiNode};
use crate::state::{CompositeState, GameState, PauseState};
use crate::escape::pause_menu_listener_sys;
use crate::main_menu::menu_setup_sys;
use crate::settings::{back_action, settings_menu_setup_sys, settings_screen};
use crate::tree::{
    despawn_entities, without, OnMenuScreen, OnPauseMenuScreen, OnSettingsMenuScreen, Slots, UiTree,
};
use crate::widgets::{
    button_color_sys, changed_interactions, exec_menu_background_color, exec_menu_text_color,
    menu_background_color, menu_text_color, recolored_by, resolved, routed, ButtonNode,
    InteractionEvent, MenuContainerNode, MenuFont,
};

verus! {

/// The title of the pause menu, under the container `parent`.
pub open spec fn pause_menu_title(parent: int) -> UiNode<Seq<char>> {
    UiNode {
        parent: Some(parent as usize),
        tag: None,
        layout: Layout::plain(),
        kind: NodeKind::Text {
            text: "Game Paused"@,
            font: MenuFont::sized(120),
            color: menu_text_color(),
        },
    }
}

/// The nodes of the pause menu as they stand in an arena in which the first
/// of them gets the id `base`: the dimmed container with the title and the
/// buttons "Resume", "Settings", "Quit to Title" and "Quit".
pub open spec fn pause_menu_screen(base: int) -> Slots {
    seq![
        Some(
            UiNode {
                tag: Some(ScreenTag::OnPauseMenuScreen),
                kind: NodeKind::Container { background: Some(menu_background_color()) },
                ..MenuContainerNode::node()
            },
        ),
        Some(pause_menu_title(base)),
    ] + ButtonNode::nodes(
        (base + 2) as usize,
        base as usize,
        ButtonAction::Pause(PauseButtonAction::Resume),
        "Resume"@,
    ) + ButtonNode::nodes((base + 4) as usize, base as usize, ButtonAction::Settings, "Settings"@)
        + ButtonNode::nodes(
        (base + 6) as usize,
        base as usize,
        ButtonAction::Pause(PauseButtonAction::QuitToTitle),
        "Quit to Title"@,
    ) + ButtonNode::nodes((base + 8) as usize, base as usize, ButtonAction::Quit, "Quit"@)
}

/// Opens the pause mode on its menu: a state that is about to be entered
/// with the pause mode as its top-level state gets `PauseMenu` as the pause
/// sub-state.
pub fn pause_setup_sys(target: &mut CompositeState)
    ensures
        *final(target) == (CompositeState { pause: PauseState::PauseMenu, ..*old(target) }),
{
    target.pause = PauseState::PauseMenu;
}

/// Builds the pause menu. Runs when the pause sub-state becomes `PauseMenu`.
pub fn pause_menu_setup_sys(ui: &mut UiTree)
    requires
        old(ui).wf(),
    ensures
        final(ui).wf(),
        final(ui)@ == old(ui)@ + pause_menu_screen(old(ui)@.len() as int),
{
    let container = MenuContainerNode::spawn(ui);
    let title = NodeKind::Text {
        text: "Game Paused".to_owned(),
        font: MenuFont::title_font(),
        color: exec_menu_text_color(),
    };
    ui.insert_tag(container, ScreenTag::OnPauseMenuScreen);
    ui.insert_background(container, exec_menu_background_color());
    let _ = ui.spawn_child(container, None, Layout::default(), title);
    let _ = ButtonNode::spawn(
        ui,
        container,
        ButtonAction::Pause(PauseButtonAction::Resume),
        "Resume".to_owned(),
    );
    let _ = ButtonNode::spawn(ui, container, ButtonAction::Settings, "Settings".to_owned());
    let _ = ButtonNode::spawn(
        ui,
        container,
        ButtonAction::Pause(PauseButtonAction::QuitToTitle),
        "Quit to Title".to_owned(),
    );
    let _ = ButtonNode::spawn(ui, container, ButtonAction::Quit, "Quit".to_owned());
}

/// Routes the buttons that were pressed in this tick while the pause mode
/// is the top-level state; under any other top-level state it does nothing.
///
/// `interactions` holds, for each button whose interaction changed, the new
/// interaction and the button's action. Each press is looked up in the
/// transition table against the current state, and what it asks for is
/// queued. The first press that the table does not allow in the current
/// state ends the routing: the error names it, and nothing is queued.
pub fn pause_button_action_sys(
    state: &CompositeState,
    interactions: &Vec<(Interaction, ButtonAction)>,
    requests: &mut Requests,
) -> (r: Result<(), NavError>)
    ensures
        state.game != GameState::Pause ==> r is Ok && *final(requests) == *old(requests),
        state.game == GameState::Pause ==> match route_presses(
            *state,
            interactions@,
            *old(requests),
        ) {
            Ok(queued) => r is Ok && *final(requests) == queued,
            Err(e) => r == Err::<(), NavError>(e) && *final(requests) == *old(requests),
        },
{
    if state.game != GameState::Pause {
        return Ok(());
    }
    let mut queued = *requests;
    let mut i: usize = 0;
    assert(interactions@.skip(0) =~= interactions@);
    while i < interactions.len()
        invariant
            i <= interactions@.len(),
            state.game == GameState::Pause,
            *requests == *old(requests),
            route_presses(*state, interactions@.skip(i as int), queued) == route_presses(
                *state,
                interactions@,
                *old(requests),
            ),
        decreases interactions@.len() - i,
    {
        let (interaction, button_action) = interactions[i];
        proof {
            let rest = interactions@.skip(i as int);
            assert(rest.drop_first() =~= interactions@.skip(i + 1));
        }
        if interaction == Interaction::Pressed {
            match (state.pause, button_action) {
                (_, ButtonAction::Quit) => {
                    queued.request_exit();
                },
                (PauseState::PauseMenu, ButtonAction::Settings) => {
                    queued.set(
                        CompositeState {
                            game: GameState::Pause,
                            menu: state.menu,
                            pause: PauseState::Settings,
                        },
                    );
                },
                (PauseState::PauseMenu, ButtonAction::Pause(PauseButtonAction::QuitToTitle)) => {
                    let mut target = CompositeState {
                        game: GameState::Menu,
                        menu: state.menu,
                        pause: PauseState::Disabled,
                    };
                    menu_setup_sys(&mut target);
                    queued.set(target);
                },
                (PauseState::PauseMenu, ButtonAction::Pause(PauseButtonAction::Resume)) => {
                    queued.set(
                        CompositeState {
                            game: GameState::Game,
                            menu: state.menu,
                            pause: PauseState::Disabled,
                        },
                    );
                },
                (PauseState::Settings, ButtonAction::Pause(PauseButtonAction::BackToMenu)) => {
                    queued.set(
                        CompositeState {
                            game: GameState::Pause,
                            menu: state.menu,
                            pause: PauseState::PauseMenu,
                        },
                    );
                },
                _ => {
                    return Err(
                        NavError::InvalidTransition {
                            trigger: Trigger::Pressed(button_action),
                            state: *state,
                        },
                    );
                },
            }
        }
        i = i + 1;
    }
    *requests = queued;
    Ok(())
}

/// The pause mode's part of the application: it builds and removes the
/// screens of the pause mode as the state changes, and routes buttons and
/// the escape key while the pause mode is the top-level state.
pub struct PausePlugin;

impl PausePlugin {
    /// The arena after the exit hooks for the change from `from` to `to`:
    /// leaving the pause mode removes all that is on a menu screen, and
    /// leaving a sub-state removes that sub-screen.
    pub open spec fn exited(s: Slots, from: CompositeState, to: CompositeState) -> Slots {
        let s1 = if from.game == GameState::Pause && to.game != GameState::Pause {
            without(s, ScreenTag::OnMenuScreen)
        } else {
            s
        };
        if from.pause == to.pause {
            s1
        } else {
            match from.pause {
                PauseState::PauseMenu => without(s1, ScreenTag::OnPauseMenuScreen),
                PauseState::Settings => without(s1, ScreenTag::OnSettingsMenuScreen),
                PauseState::Disabled => s1,
            }
        }
    }

    /// The arena after the enter hooks for the change from `from` to `to`:
    /// a sub-state that is entered gets its screen built.
    pub open spec fn entered(s: Slots, from: CompositeState, to: CompositeState) -> Result<
        Slots,
        NavError,
    > {
        if from.pause == to.pause {
            Ok(s)
        } else {
            match to.pause {
                PauseState::PauseMenu => Ok(s + pause_menu_screen(s.len() as int)),
                PauseState::Settings => match back_action(to.game) {
                    Some(back) => Ok(s + settings_screen(s.len() as int, back)),
                    None => Err(NavError::InvalidContext { state: to.game }),
                },
                PauseState::Disabled => Ok(s),
            }
        }
    }

    /// Exit hooks of the change from `from` to `to`.
    pub fn exit(from: &CompositeState, to: &CompositeState, ui: &mut UiTree)
        requires
            old(ui).wf(),
        ensures
            final(ui).wf(),
            final(ui)@ == PausePlugin::exited(old(ui)@, *from, *to),
    {
        if from.game == GameState::Pause && to.game != GameState::Pause {
            despawn_entities::<OnMenuScreen>(ui);
        }
        if from.pause != to.pause {
            match from.pause {
                PauseState::PauseMenu => despawn_entities::<OnPauseMenuScreen>(ui),
                PauseState::Settings => despawn_entities::<OnSettingsMenuScreen>(ui),
                PauseState::Disabled => {},
            }
        }
    }

    /// Enter hooks of the change from `from` to `to`. On an error nothing
    /// has been built.
    pub fn enter(from: &CompositeState, to: &CompositeState, ui: &mut UiTree) -> (r: Result<
        (),
        NavError,
    >)
        requires
            old(ui).wf(),
        ensures
            final(ui).wf(),
            match PausePlugin::entered(old(ui)@, *from, *to) {
                Ok(s) => r is Ok && final(ui)@ == s,
                Err(e) => r == Err::<(), NavError>(e) && final(ui)@ == old(ui)@,
            },
    {
        if from.pause != to.pause {
            match to.pause {
                PauseState::PauseMenu => {
                    pause_menu_setup_sys(ui);
                },
                PauseState::Settings => {
                    return settings_menu_setup_sys(ui, to.game);
                },
                PauseState::Disabled => {},
            }
        }
        Ok(())
    }

    /// The systems of every tick, in their order: the colours of the
    /// buttons, the routing of the buttons, the escape key. They run only
    /// while the pause mode is the top-level state. On an error nothing has
    /// been queued.
    pub fn update(
        state: &CompositeState,
        ui: &mut UiTree,
        events: &Vec<InteractionEvent>,
        escape_just_pressed: bool,
        requests: &mut Requests,
    ) -> (r: Result<(), NavError>)
        requires
            old(ui).wf(),
        ensures
            final(ui).wf(),
            final(ui)@ == (if state.game == GameState::Pause {
                recolored_by(old(ui)@, events@)
            } else {
                old(ui)@
            }),
            match routed(
                state.game == GameState::Pause,
                *state,
                resolved(old(ui)@, events@),
                escape_just_pressed,
                *old(requests),
            ) {
                Ok(queued) => r is Ok && *final(requests) == queued,
                Err(e) => r == Err::<(), NavError>(e) && *final(requests) == *old(requests),
            },
    {
        if state.game == GameState::Pause {
            let interactions = changed_interactions(ui, events);
            button_color_sys(ui, events);
            let before = *requests;
            pause_button_action_sys(state, &interactions, requests)?;
            match pause_menu_listener_sys(escape_just_pressed, state, requests) {
                Ok(()) => {},
                Err(e) => {
                    *requests = before;
                    return Err(e);
                },
            }
        }
        Ok(())
    }
}

} // verus!
