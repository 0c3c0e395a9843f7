use screen_nav::action::{
    ButtonAction, Effect, Interaction, MenuButtonAction, NavError, PauseButtonAction, Requests,
    Trigger,
};
use screen_nav::escape::pause_menu_listener_sys;
use screen_nav::main_menu::{menu_button_action_sys, menu_setup_sys, MenuPlugin};
use screen_nav::pause::{pause_button_action_sys, pause_setup_sys, PausePlugin};
use screen_nav::state::{CompositeState, GameState, MenuState, PauseState};
use screen_nav::tree::UiTree;
use screen_nav::ui::{Frame, UiPlugin};
use screen_nav::widgets::{changed_interactions, ButtonNode, InteractionEvent, MenuContainerNode};

fn state(game: GameState, menu: MenuState, pause: PauseState) -> CompositeState {
    CompositeState { game, menu, pause }
}

fn main_menu() -> CompositeState {
    state(GameState::Menu, MenuState::MainMenu, PauseState::Disabled)
}

fn menu_settings() -> CompositeState {
    state(GameState::Menu, MenuState::Settings, PauseState::Disabled)
}

fn game() -> CompositeState {
    state(GameState::Game, MenuState::Disabled, PauseState::Disabled)
}

fn pause_menu() -> CompositeState {
    state(GameState::Pause, MenuState::Disabled, PauseState::PauseMenu)
}

fn pause_settings() -> CompositeState {
    state(GameState::Pause, MenuState::Disabled, PauseState::Settings)
}

fn splash() -> CompositeState {
    state(GameState::Splash, MenuState::Disabled, PauseState::Disabled)
}

fn pressed(action: ButtonAction) -> Vec<(Interaction, ButtonAction)> {
    vec![(Interaction::Pressed, action)]
}

fn menu_route(s: CompositeState, action: ButtonAction) -> Result<Requests, NavError> {
    let mut requests = Requests::new();
    menu_button_action_sys(&s, &pressed(action), &mut requests).map(|()| requests)
}

fn pause_route(s: CompositeState, action: ButtonAction) -> Result<Requests, NavError> {
    let mut requests = Requests::new();
    pause_button_action_sys(&s, &pressed(action), &mut requests).map(|()| requests)
}

fn escape_route(s: CompositeState) -> Result<Requests, NavError> {
    let mut requests = Requests::new();
    pause_menu_listener_sys(true, &s, &mut requests).map(|()| requests)
}

fn goto(target: CompositeState) -> Result<Requests, NavError> {
    Ok(Requests { next: Some(target), exit: false })
}

fn nothing() -> Result<Requests, NavError> {
    Ok(Requests { next: None, exit: false })
}

fn invalid(trigger: Trigger, s: CompositeState) -> Result<Requests, NavError> {
    Err(NavError::InvalidTransition { trigger, state: s })
}

#[test]
fn the_buffer_starts_empty_and_the_last_write_wins() {
    let mut requests = Requests::new();
    assert_eq!(requests, Requests { next: None, exit: false });
    requests.set(game());
    requests.set(pause_menu());
    assert_eq!(requests, Requests { next: Some(pause_menu()), exit: false });
    requests.request_exit();
    assert_eq!(requests, Requests { next: Some(pause_menu()), exit: true });
    requests.record(Effect::Stay);
    assert_eq!(requests, Requests { next: Some(pause_menu()), exit: true });
    requests.record(Effect::Goto(main_menu()));
    assert_eq!(requests, Requests { next: Some(main_menu()), exit: true });
    let mut other = Requests::new();
    other.record(Effect::Exit);
    assert_eq!(other, Requests { next: None, exit: true });
}

#[test]
fn composite_states_know_whether_they_are_consistent() {
    assert!(splash().is_consistent());
    assert!(main_menu().is_consistent());
    assert!(menu_settings().is_consistent());
    assert!(game().is_consistent());
    assert!(pause_menu().is_consistent());
    assert!(pause_settings().is_consistent());
    assert!(!state(GameState::Menu, MenuState::Disabled, PauseState::Disabled).is_consistent());
    assert!(!state(GameState::Game, MenuState::Settings, PauseState::Disabled).is_consistent());
    assert!(!state(GameState::Pause, MenuState::MainMenu, PauseState::PauseMenu).is_consistent());
    assert!(!state(GameState::Splash, MenuState::Disabled, PauseState::Settings).is_consistent());
    assert_eq!(CompositeState::default(), splash());
    assert_eq!(
        CompositeState::new(GameState::Pause, MenuState::Disabled, PauseState::Settings),
        pause_settings()
    );
    assert_eq!(GameState::default(), GameState::Splash);
    assert_eq!(MenuState::default(), MenuState::Disabled);
    assert_eq!(PauseState::default(), PauseState::Disabled);
}

#[test]
fn the_menu_routes_its_buttons_by_the_table() {
    assert_eq!(menu_route(main_menu(), ButtonAction::Menu(MenuButtonAction::NewGame)), goto(game()));
    assert_eq!(menu_route(main_menu(), ButtonAction::Settings), goto(menu_settings()));
    assert_eq!(
        menu_route(menu_settings(), ButtonAction::Menu(MenuButtonAction::BackToMenu)),
        goto(main_menu())
    );
    assert_eq!(menu_route(main_menu(), ButtonAction::Quit), Ok(Requests { next: None, exit: true }));
    assert_eq!(
        menu_route(menu_settings(), ButtonAction::Quit),
        Ok(Requests { next: None, exit: true })
    );
}

#[test]
fn the_pause_mode_routes_its_buttons_by_the_table() {
    assert_eq!(pause_route(pause_menu(), ButtonAction::Pause(PauseButtonAction::Resume)), goto(game()));
    assert_eq!(pause_route(pause_menu(), ButtonAction::Settings), goto(pause_settings()));
    assert_eq!(
        pause_route(pause_menu(), ButtonAction::Pause(PauseButtonAction::QuitToTitle)),
        goto(main_menu())
    );
    assert_eq!(
        pause_route(pause_settings(), ButtonAction::Pause(PauseButtonAction::BackToMenu)),
        goto(pause_menu())
    );
    assert_eq!(pause_route(pause_menu(), ButtonAction::Quit), Ok(Requests { next: None, exit: true }));
    assert_eq!(
        pause_route(pause_settings(), ButtonAction::Quit),
        Ok(Requests { next: None, exit: true })
    );
}

#[test]
fn a_pause_action_in_the_menu_is_a_wiring_error() {
    for action in [
        ButtonAction::Pause(PauseButtonAction::Resume),
        ButtonAction::Pause(PauseButtonAction::QuitToTitle),
        ButtonAction::Pause(PauseButtonAction::BackToMenu),
    ] {
        assert_eq!(menu_route(main_menu(), action), invalid(Trigger::Pressed(action), main_menu()));
        assert_eq!(
            menu_route(menu_settings(), action),
            invalid(Trigger::Pressed(action), menu_settings())
        );
    }
}

#[test]
fn a_menu_action_in_the_pause_mode_is_a_wiring_error() {
    for action in [
        ButtonAction::Menu(MenuButtonAction::NewGame),
        ButtonAction::Menu(MenuButtonAction::BackToMenu),
    ] {
        assert_eq!(pause_route(pause_menu(), action), invalid(Trigger::Pressed(action), pause_menu()));
        assert_eq!(
            pause_route(pause_settings(), action),
            invalid(Trigger::Pressed(action), pause_settings())
        );
    }
}

#[test]
fn an_action_of_another_sub_screen_is_a_wiring_error() {
    let back = ButtonAction::Menu(MenuButtonAction::BackToMenu);
    assert_eq!(menu_route(main_menu(), back), invalid(Trigger::Pressed(back), main_menu()));
    let new_game = ButtonAction::Menu(MenuButtonAction::NewGame);
    assert_eq!(menu_route(menu_settings(), new_game), invalid(Trigger::Pressed(new_game), menu_settings()));
    assert_eq!(
        menu_route(menu_settings(), ButtonAction::Settings),
        invalid(Trigger::Pressed(ButtonAction::Settings), menu_settings())
    );
    let resume = ButtonAction::Pause(PauseButtonAction::Resume);
    assert_eq!(pause_route(pause_settings(), resume), invalid(Trigger::Pressed(resume), pause_settings()));
    let back = ButtonAction::Pause(PauseButtonAction::BackToMenu);
    assert_eq!(pause_route(pause_menu(), back), invalid(Trigger::Pressed(back), pause_menu()));
    assert_eq!(
        pause_route(pause_settings(), ButtonAction::Settings),
        invalid(Trigger::Pressed(ButtonAction::Settings), pause_settings())
    );
}

#[test]
fn a_wiring_error_queues_nothing() {
    let mut requests = Requests { next: Some(game()), exit: false };
    let interactions = vec![
        (Interaction::Pressed, ButtonAction::Settings),
        (Interaction::Pressed, ButtonAction::Quit),
        (Interaction::Pressed, ButtonAction::Pause(PauseButtonAction::Resume)),
    ];
    assert_eq!(
        menu_button_action_sys(&main_menu(), &interactions, &mut requests),
        Err(NavError::InvalidTransition {
            trigger: Trigger::Pressed(ButtonAction::Pause(PauseButtonAction::Resume)),
            state: main_menu(),
        })
    );
    assert_eq!(requests, Requests { next: Some(game()), exit: false });
}

#[test]
fn the_first_wiring_error_is_the_one_reported() {
    let mut requests = Requests::new();
    let interactions = vec![
        (Interaction::Pressed, ButtonAction::Menu(MenuButtonAction::BackToMenu)),
        (Interaction::Pressed, ButtonAction::Menu(MenuButtonAction::NewGame)),
    ];
    assert_eq!(
        pause_button_action_sys(&pause_menu(), &interactions, &mut requests),
        Err(NavError::InvalidTransition {
            trigger: Trigger::Pressed(ButtonAction::Menu(MenuButtonAction::BackToMenu)),
            state: pause_menu(),
        })
    );
}

#[test]
fn only_presses_are_routed() {
    let mut requests = Requests::new();
    let interactions = vec![
        (Interaction::Hovered, ButtonAction::Menu(MenuButtonAction::NewGame)),
        (Interaction::Idle, ButtonAction::Quit),
        (Interaction::Hovered, ButtonAction::Pause(PauseButtonAction::Resume)),
    ];
    assert_eq!(menu_button_action_sys(&main_menu(), &interactions, &mut requests), Ok(()));
    assert_eq!(requests, Requests { next: None, exit: false });
    assert_eq!(pause_button_action_sys(&pause_menu(), &interactions, &mut requests), Ok(()));
    assert_eq!(requests, Requests { next: None, exit: false });
}

#[test]
fn the_routers_rest_outside_their_state() {
    let anything = ButtonAction::Pause(PauseButtonAction::Resume);
    for s in [splash(), game(), pause_menu(), pause_settings()] {
        assert_eq!(menu_route(s, anything), nothing());
        assert_eq!(menu_route(s, ButtonAction::Quit), nothing());
    }
    let anything = ButtonAction::Menu(MenuButtonAction::NewGame);
    for s in [splash(), game(), main_menu(), menu_settings()] {
        assert_eq!(pause_route(s, anything), nothing());
        assert_eq!(pause_route(s, ButtonAction::Quit), nothing());
    }
}

#[test]
fn escape_follows_the_table() {
    assert_eq!(escape_route(splash()), nothing());
    assert_eq!(escape_route(main_menu()), nothing());
    assert_eq!(escape_route(menu_settings()), goto(main_menu()));
    assert_eq!(escape_route(game()), goto(pause_menu()));
    assert_eq!(escape_route(pause_menu()), goto(game()));
    assert_eq!(escape_route(pause_settings()), goto(pause_menu()));
}

#[test]
fn escape_is_idle_on_splash_and_main_menu_whatever_the_other_slots_hold() {
    for menu in [MenuState::MainMenu, MenuState::Settings, MenuState::Disabled] {
        for pause in [PauseState::PauseMenu, PauseState::Settings, PauseState::Disabled] {
            assert_eq!(escape_route(state(GameState::Splash, menu, pause)), nothing());
        }
    }
    for pause in [PauseState::PauseMenu, PauseState::Settings, PauseState::Disabled] {
        assert_eq!(escape_route(state(GameState::Menu, MenuState::MainMenu, pause)), nothing());
    }
}

#[test]
fn escape_in_a_state_that_cannot_be_is_an_error() {
    let broken = state(GameState::Menu, MenuState::Disabled, PauseState::Disabled);
    assert_eq!(escape_route(broken), invalid(Trigger::Escape, broken));
    let broken = state(GameState::Pause, MenuState::Disabled, PauseState::Disabled);
    assert_eq!(escape_route(broken), invalid(Trigger::Escape, broken));
    let mut requests = Requests { next: Some(game()), exit: true };
    assert_eq!(
        pause_menu_listener_sys(true, &broken, &mut requests),
        Err(NavError::InvalidTransition { trigger: Trigger::Escape, state: broken })
    );
    assert_eq!(requests, Requests { next: Some(game()), exit: true });
}

#[test]
fn a_key_that_did_not_go_down_does_nothing() {
    for s in [splash(), main_menu(), menu_settings(), game(), pause_menu(), pause_settings()] {
        let mut requests = Requests::new();
        assert_eq!(pause_menu_listener_sys(false, &s, &mut requests), Ok(()));
        assert_eq!(requests, Requests { next: None, exit: false });
    }
    let broken = state(GameState::Menu, MenuState::Disabled, PauseState::Disabled);
    let mut requests = Requests::new();
    assert_eq!(pause_menu_listener_sys(false, &broken, &mut requests), Ok(()));
}

#[test]
fn a_slot_that_a_row_does_not_name_keeps_its_value() {
    let odd = state(GameState::Game, MenuState::Settings, PauseState::Disabled);
    assert_eq!(
        escape_route(odd),
        goto(state(GameState::Pause, MenuState::Settings, PauseState::PauseMenu))
    );
    let odd = state(GameState::Menu, MenuState::MainMenu, PauseState::Settings);
    assert_eq!(
        menu_route(odd, ButtonAction::Menu(MenuButtonAction::NewGame)),
        goto(state(GameState::Game, MenuState::Disabled, PauseState::Settings))
    );
    let odd = state(GameState::Pause, MenuState::Settings, PauseState::PauseMenu);
    assert_eq!(
        pause_route(odd, ButtonAction::Pause(PauseButtonAction::QuitToTitle)),
        goto(main_menu())
    );
}

#[test]
fn events_are_resolved_to_the_actions_of_their_buttons() {
    let mut ui = UiTree::new();
    let root = MenuContainerNode::spawn(&mut ui);
    let quit = ButtonNode::spawn(&mut ui, root, ButtonAction::Quit, "Quit".to_string()).unwrap();
    let settings =
        ButtonNode::spawn(&mut ui, root, ButtonAction::Settings, "Settings".to_string()).unwrap();
    let events = vec![
        InteractionEvent { node: settings, interaction: Interaction::Hovered },
        InteractionEvent { node: root, interaction: Interaction::Pressed },
        InteractionEvent { node: quit, interaction: Interaction::Pressed },
        InteractionEvent { node: quit + 1, interaction: Interaction::Pressed },
        InteractionEvent { node: 99, interaction: Interaction::Pressed },
        InteractionEvent { node: settings, interaction: Interaction::Idle },
    ];
    assert_eq!(
        changed_interactions(&ui, &events),
        vec![
            (Interaction::Hovered, ButtonAction::Settings),
            (Interaction::Pressed, ButtonAction::Quit),
            (Interaction::Idle, ButtonAction::Settings),
        ]
    );
}

#[test]
fn a_plugin_reports_a_wiring_error_and_queues_nothing() {
    let mut ui = UiTree::new();
    let root = MenuContainerNode::spawn(&mut ui);
    let wrong = ButtonNode::spawn(
        &mut ui,
        root,
        ButtonAction::Pause(PauseButtonAction::Resume),
        "Resume".to_string(),
    )
    .unwrap();
    let events = vec![InteractionEvent { node: wrong, interaction: Interaction::Pressed }];
    let mut requests = Requests::new();
    assert_eq!(
        MenuPlugin::update(&main_menu(), &mut ui, &events, true, &mut requests),
        Err(NavError::InvalidTransition {
            trigger: Trigger::Pressed(ButtonAction::Pause(PauseButtonAction::Resume)),
            state: main_menu(),
        })
    );
    assert_eq!(requests, Requests { next: None, exit: false });
    assert_eq!(PausePlugin::update(&main_menu(), &mut ui, &events, true, &mut requests), Ok(()));
    assert_eq!(requests, Requests { next: None, exit: false });
    assert_eq!(
        PausePlugin::update(&pause_menu(), &mut ui, &events, false, &mut requests),
        goto(game()).map(|_| ())
    );
    assert_eq!(requests, Requests { next: Some(game()), exit: false });
}

#[test]
fn escape_after_a_valid_press_fails_in_a_state_that_cannot_be() {
    let broken = state(GameState::Menu, MenuState::Disabled, PauseState::Disabled);
    let mut ui = UiTree::new();
    let root = MenuContainerNode::spawn(&mut ui);
    let quit = ButtonNode::spawn(&mut ui, root, ButtonAction::Quit, "Quit".to_string()).unwrap();
    let events = vec![InteractionEvent { node: quit, interaction: Interaction::Pressed }];
    let mut requests = Requests::new();
    assert_eq!(
        MenuPlugin::update(&broken, &mut ui, &events, true, &mut requests),
        Err(NavError::InvalidTransition { trigger: Trigger::Escape, state: broken })
    );
    assert_eq!(requests, Requests { next: None, exit: false });
}

#[test]
fn in_the_game_only_the_escape_key_is_heard() {
    let mut ui = UiTree::new();
    let mut timer = None;
    let mut requests = Requests::new();
    let frame = Frame {
        delta: 3,
        escape_just_pressed: true,
        events: vec![InteractionEvent { node: 0, interaction: Interaction::Pressed }],
    };
    assert_eq!(UiPlugin::update(&game(), &mut ui, &mut timer, &frame, &mut requests), Ok(()));
    assert_eq!(requests, Requests { next: Some(pause_menu()), exit: false });
    assert_eq!(timer, None);
}

#[test]
fn a_mode_opens_on_its_first_sub_screen() {
    let mut target = state(GameState::Menu, MenuState::Disabled, PauseState::Disabled);
    menu_setup_sys(&mut target);
    assert_eq!(target, main_menu());
    let mut target = state(GameState::Menu, MenuState::Settings, PauseState::Settings);
    menu_setup_sys(&mut target);
    assert_eq!(target, state(GameState::Menu, MenuState::MainMenu, PauseState::Settings));
    let mut target = state(GameState::Pause, MenuState::Disabled, PauseState::Disabled);
    pause_setup_sys(&mut target);
    assert_eq!(target, pause_menu());
    let mut target = state(GameState::Pause, MenuState::Settings, PauseState::Settings);
    pause_setup_sys(&mut target);
    assert_eq!(target, state(GameState::Pause, MenuState::Settings, PauseState::PauseMenu));
}
