//! The main menu: its screen and the routing of its buttons.

use vstd::prelude::*;
use crate::action::{
    route_presses, ButtonAction, Interaction, MenuButtonAction, NavError, Requests, Trigger,
};
use crate::node::{Layout, NodeKind, ScreenTag, UiNode};
use crate::state::{CompositeState, GameState, MenuState};
use crate::escape::pause_menu_listener_sys;
use crate::settings::{back_action, settings_menu_setup_sys, settings_screen};
use crate::tree::{
    despawn_entities, without, OnMainMenuScreen, OnMenuScreen, OnSettingsMenuScreen, Slots, UiTree,
};
use crate::widgets::{
    button_color_sys, changed_interactions, exec_menu_text_color, menu_text_color, recolored_by,
    resolved, routed, ButtonNode, InteractionEvent, MenuContainerNode, MenuFont,
};

verus! {

/// A corner ornament of the main menu: a square sprite that belongs to the
/// main menu and hangs under nothing.
pub open spec fn border(path: Seq<char>, x: int, y: int) -> UiNode<Seq<char>> {
    UiNode {
        parent: None,
        tag: Some(ScreenTag::OnMainMenuScreen),
        layout: Layout::plain(),
        kind: NodeKind::Sprite { path, size: 300, x: x as i32, y: y as i32, z: (-10) as i32 },
    }
}

/// The title of the main menu, under the container `parent`.
pub open spec fn main_menu_title(parent: int) -> UiNode<Seq<char>> {
    UiNode {
        parent: Some(parent as usize),
        tag: None,
        layout: Layout { margin: 50, ..Layout::plain() },
        kind: NodeKind::Text {
            text: "To Know Them"@,
            font: MenuFont::sized(120),
            color: menu_text_color(),
        },
    }
}

/// The nodes of the main menu as they stand in an arena in which the first
/// of them gets the id `base`: the container with the title and the buttons
/// "New Game", "Settings" and "Quit", then the four corner ornaments.
pub open spec fn main_menu_screen(base: int) -> Slots {
    seq![
        Some(UiNode { tag: Some(ScreenTag::OnMainMenuScreen), ..MenuContainerNode::node() }),
        Some(main_menu_title(base)),
    ] + ButtonNode::nodes(
        (base + 2) as usize,
        base as usize,
        ButtonAction::Menu(MenuButtonAction::NewGame),
        "New Game"@,
    ) + ButtonNode::nodes((base + 4) as usize, base as usize, ButtonAction::Settings, "Settings"@)
        + ButtonNode::nodes((base + 6) as usize, base as usize, ButtonAction::Quit, "Quit"@)
        + seq![
        Some(border("menu/top_left_border.png"@, -450, 250)),
        Some(border("menu/top_right_border.png"@, 450, 250)),
        Some(border("menu/bottom_left_border.png"@, -450, -250)),
        Some(border("menu/bottom_right_border.png"@, 450, -250)),
    ]
}

fn spawn_border(ui: &mut UiTree, path: &str, x: i32, y: i32)
    requires
        old(ui).wf(),
    ensures
        final(ui).wf(),
        final(ui)@ == old(ui)@.push(Some(border(path@, x as int, y as int))),
{
    let kind = NodeKind::Sprite { path: path.to_owned(), size: 300, x, y, z: -10 };
    let _ = ui.spawn_root(Some(ScreenTag::OnMainMenuScreen), Layout::default(), kind);
}

/// Opens the menu on its main screen: a state that is about to be entered
/// with the menu as its top-level state gets `MainMenu` as the menu's
/// sub-state.
pub fn menu_setup_sys(target: &mut CompositeState)
    ensures
        *final(target) == (CompositeState { menu: MenuState::MainMenu, ..*old(target) }),
{
    target.menu = MenuState::MainMenu;
}

/// Builds the main menu. Runs when the menu's sub-state becomes `MainMenu`.
pub fn main_menu_setup_sys(ui: &mut UiTree)
    requires
        old(ui).wf(),
    ensures
        final(ui).wf(),
        final(ui)@ == old(ui)@ + main_menu_screen(old(ui)@.len() as int),
{
    let container = MenuContainerNode::spawn(ui);
    ui.insert_tag(container, ScreenTag::OnMainMenuScreen);
    let title = NodeKind::Text {
        text: "To Know Them".to_owned(),
        font: MenuFont::title_font(),
        color: exec_menu_text_color(),
    };
    let title_layout = Layout { margin: 50, ..Layout::default() };
    let _ = ui.spawn_child(container, None, title_layout, title);
    let _ = ButtonNode::spawn(
        ui,
        container,
        ButtonAction::Menu(MenuButtonAction::NewGame),
        "New Game".to_owned(),
    );
    let _ = ButtonNode::spawn(ui, container, ButtonAction::Settings, "Settings".to_owned());
    let _ = ButtonNode::spawn(ui, container, ButtonAction::Quit, "Quit".to_owned());
    spawn_border(ui, "menu/top_left_border.png", -450, 250);
    spawn_border(ui, "menu/top_right_border.png", 450, 250);
    spawn_border(ui, "menu/bottom_left_border.png", -450, -250);
    spawn_border(ui, "menu/bottom_right_border.png", 450, -250);
}

/// Routes the buttons that were pressed in this tick while the menu is the
/// top-level state; under any other top-level state it does nothing.
///
/// `interactions` holds, for each button whose interaction changed, the new
/// interaction and the button's action. Each press is looked up in the
/// transition table against the current state, and what it asks for is
/// queued. The first press that the table does not allow in the current
/// state ends the routing: the error names it, and nothing is queued.
pub fn menu_button_action_sys(
    state: &CompositeState,
    interactions: &Vec<(Interaction, ButtonAction)>,
    requests: &mut Requests,
) -> (r: Result<(), NavError>)
    ensures
        state.game != GameState::Menu ==> r is Ok && *final(requests) == *old(requests),
        state.game == GameState::Menu ==> match route_presses(
            *state,
            interactions@,
            *old(requests),
        ) {
            Ok(queued) => r is Ok && *final(requests) == queued,
            Err(e) => r == Err::<(), NavError>(e) && *final(requests) == *old(requests),
        },
{
    if state.game != GameState::Menu {
        return Ok(());
    }
    let mut queued = *requests;
    let mut i: usize = 0;
    assert(interactions@.skip(0) =~= interactions@);
    while i < interactions.len()
        invariant
            i <= interactions@.len(),
            state.game == GameState::Menu,
            *requests == *old(requests),
            route_presses(*state, interactions@.skip(i as int), queued) == route_presses(
                *state,
                interactions@,
                *old(requests),
            ),
        decreases interactions@.len() - i,
    {
        let (interaction, button_action) = interactions[i];
        proof {
            let rest = interactions@.skip(i as int);
            assert(rest.drop_first() =~= interactions@.skip(i + 1));
        }
        if interaction == Interaction::Pressed {
            match (state.menu, button_action) {
                (_, ButtonAction::Quit) => {
                    queued.request_exit();
                },
                (MenuState::MainMenu, ButtonAction::Settings) => {
                    queued.set(
                        CompositeState {
                            game: GameState::Menu,
                            menu: MenuState::Settings,
                            pause: state.pause,
                        },
                    );
                },
                (MenuState::Settings, ButtonAction::Menu(MenuButtonAction::BackToMenu)) => {
                    queued.set(
                        CompositeState {
                            game: GameState::Menu,
                            menu: MenuState::MainMenu,
                            pause: state.pause,
                        },
                    );
                },
                (MenuState::MainMenu, ButtonAction::Menu(MenuButtonAction::NewGame)) => {
                    queued.set(
                        CompositeState {
                            game: GameState::Game,
                            menu: MenuState::Disabled,
                            pause: state.pause,
                        },
                    );
                },
                _ => {
                    return Err(
                        NavError::InvalidTransition {
                            trigger: Trigger::Pressed(button_action),
                            state: *state,
                        },
                    );
                },
            }
        }
        i = i + 1;
    }
    *requests = queued;
    Ok(())
}

/// The menu's part of the application: it builds and removes the screens of
/// the menu as the state changes, and routes buttons and the escape key
/// while the menu is the top-level state.
pub struct MenuPlugin;

impl MenuPlugin {
    /// The arena after the exit hooks for the change from `from` to `to`:
    /// leaving the menu removes all that is on a menu screen, and leaving a
    /// sub-state removes that sub-screen.
    pub open spec fn exited(s: Slots, from: CompositeState, to: CompositeState) -> Slots {
        let s1 = if from.game == GameState::Menu && to.game != GameState::Menu {
            without(s, ScreenTag::OnMenuScreen)
        } else {
            s
        };
        if from.menu == to.menu {
            s1
        } else {
            match from.menu {
                MenuState::MainMenu => without(s1, ScreenTag::OnMainMenuScreen),
                MenuState::Settings => without(s1, ScreenTag::OnSettingsMenuScreen),
                MenuState::Disabled => s1,
            }
        }
    }

    /// The arena after the enter hooks for the change from `from` to `to`:
    /// a sub-state that is entered gets its screen built.
    pub open spec fn entered(s: Slots, from: CompositeState, to: CompositeState) -> Result<
        Slots,
        NavError,
    > {
        if from.menu == to.menu {
            Ok(s)
        } else {
            match to.menu {
                MenuState::MainMenu => Ok(s + main_menu_screen(s.len() as int)),
                MenuState::Settings => match back_action(to.game) {
                    Some(back) => Ok(s + settings_screen(s.len() as int, back)),
                    None => Err(NavError::InvalidContext { state: to.game }),
                },
                MenuState::Disabled => Ok(s),
            }
        }
    }

    /// Exit hooks of the change from `from` to `to`.
    pub fn exit(from: &CompositeState, to: &CompositeState, ui: &mut UiTree)
        requires
            old(ui).wf(),
        ensures
            final(ui).wf(),
            final(ui)@ == MenuPlugin::exited(old(ui)@, *from, *to),
    {
        if from.game == GameState::Menu && to.game != GameState::Menu {
            despawn_entities::<OnMenuScreen>(ui);
        }
        if from.menu != to.menu {
            match from.menu {
                MenuState::MainMenu => despawn_entities::<OnMainMenuScreen>(ui),
                MenuState::Settings => despawn_entities::<OnSettingsMenuScreen>(ui),
                MenuState::Disabled => {},
            }
        }
    }

    /// Enter hooks of the change from `from` to `to`. On an error nothing
    /// has been built.
    pub fn enter(from: &CompositeState, to: &CompositeState, ui: &mut UiTree) -> (r: Result<
        (),
        NavError,
    >)
        requires
            old(ui).wf(),
        ensures
            final(ui).wf(),
            match MenuPlugin::entered(old(ui)@, *from, *to) {
                Ok(s) => r is Ok && final(ui)@ == s,
                Err(e) => r == Err::<(), NavError>(e) && final(ui)@ == old(ui)@,
            },
    {
        if from.menu != to.menu {
            match to.menu {
                MenuState::MainMenu => {
                    main_menu_setup_sys(ui);
                },
                MenuState::Settings => {
                    return settings_menu_setup_sys(ui, to.game);
                },
                MenuState::Disabled => {},
            }
        }
        Ok(())
    }

    /// The systems of every tick, in their order: the colours of the
    /// buttons, the routing of the buttons, the escape key. They run only
    /// while the menu is the top-level state. On an error nothing has been
    /// queued.
    pub fn update(
        state: &CompositeState,
        ui: &mut UiTree,
        events: &Vec<InteractionEvent>,
        escape_just_pressed: bool,
        requests: &mut Requests,
    ) -> (r: Result<(), NavError>)
        requires
            old(ui).wf(),
        ensures
            final(ui).wf(),
            final(ui)@ == (if state.game == GameState::Menu {
                recolored_by(old(ui)@, events@)
            } else {
                old(ui)@
            }),
            match routed(
                state.game == GameState::Menu,
                *state,
                resolved(old(ui)@, events@),
                escape_just_pressed,
                *old(requests),
            ) {
                Ok(queued) => r is Ok && *final(requests) == queued,
                Err(e) => r == Err::<(), NavError>(e) && *final(requests) == *old(requests),
            },
    {
        if state.game == GameState::Menu {
            let interactions = changed_interactions(ui, events);
            button_color_sys(ui, events);
            let before = *requests;
            menu_button_action_sys(state, &interactions, requests)?;
            match pause_menu_listener_sys(escape_just_pressed, state, requests) {
                Ok(()) => {},
                Err(e) => {
                    *requests = before;
                    return Err(e);
                },
            }
        }
        Ok(())
    }
}

} // verus!
