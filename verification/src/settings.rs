//! The settings screen, shared by the menu and the pause mode.

use vstd::prelude::*;
use crate::action::{ButtonAction, MenuButtonAction, NavError, PauseButtonAction};
use crate::node::{Layout, NodeKind, ScreenTag, UiNode};
use crate::state::GameState;
use crate::tree::{Slots, UiTree};
use crate::widgets::{
    exec_menu_background_color, exec_menu_text_color, menu_background_color, menu_text_color,
    ButtonNode, MenuContainerNode, MenuFont,
};

verus! {

/// The action of the settings screen's "back" button under each mode, or
/// `None` under a mode that has no settings screen.
pub open spec fn back_action(state: GameState) -> Option<ButtonAction> {
    match state {
        GameState::Menu => Some(ButtonAction::Menu(MenuButtonAction::BackToMenu)),
        GameState::Pause => Some(ButtonAction::Pause(PauseButtonAction::BackToMenu)),
        _ => None,
    }
}

/// The title of the settings screen, under the container `parent`.
pub open spec fn settings_title(parent: int) -> UiNode<Seq<char>> {
    UiNode {
        parent: Some(parent as usize),
        tag: None,
        layout: Layout { margin: 50, ..Layout::plain() },
        kind: NodeKind::Text {
            text: "Settings"@,
            font: MenuFont::sized(80),
            color: menu_text_color(),
        },
    }
}

/// The nodes of the settings screen as they stand in an arena in which the
/// first of them gets the id `base`: the dimmed container with the title and
/// one button, "Back to Menu", that carries `back`.
pub open spec fn settings_screen(base: int, back: ButtonAction) -> Slots {
    seq![
        Some(
            UiNode {
                tag: Some(ScreenTag::OnSettingsMenuScreen),
                kind: NodeKind::Container { background: Some(menu_background_color()) },
                ..MenuContainerNode::node()
            },
        ),
        Some(settings_title(base)),
    ] + ButtonNode::nodes((base + 2) as usize, base as usize, back, "Back to Menu"@)
}

/// Builds the settings screen. Runs when a sub-state becomes `Settings`.
/// Where the button leads back to depends on the mode that is current when
/// the screen is built; under a mode other than `Menu` and `Pause` nothing
/// is built and the error says so.
pub fn settings_menu_setup_sys(ui: &mut UiTree, current_state: GameState) -> (r: Result<
    (),
    NavError,
>)
    requires
        old(ui).wf(),
    ensures
        final(ui).wf(),
        match back_action(current_state) {
            Some(back) => r is Ok && final(ui)@ == old(ui)@ + settings_screen(
                old(ui)@.len() as int,
                back,
            ),
            None => r == Err::<(), NavError>(NavError::InvalidContext { state: current_state })
                && final(ui)@ == old(ui)@,
        },
{
    let sub_title = NodeKind::Text {
        text: "Settings".to_owned(),
        font: MenuFont::sub_title_font(),
        color: exec_menu_text_color(),
    };
    let sub_title_layout = Layout { margin: 50, ..Layout::default() };
    let button_action = match current_state {
        GameState::Menu => ButtonAction::Menu(MenuButtonAction::BackToMenu),
        GameState::Pause => ButtonAction::Pause(PauseButtonAction::BackToMenu),
        _ => {
            return Err(NavError::InvalidContext { state: current_state });
        },
    };
    let container = MenuContainerNode::spawn(ui);
    ui.insert_tag(container, ScreenTag::OnSettingsMenuScreen);
    ui.insert_background(container, exec_menu_background_color());
    let _ = ui.spawn_child(container, None, sub_title_layout, sub_title);
    let _ = ButtonNode::spawn(ui, container, button_action, "Back to Menu".to_owned());
    Ok(())
}

} // verus!
