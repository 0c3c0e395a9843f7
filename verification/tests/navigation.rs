use screen_nav::action::{ButtonAction, Interaction, MenuButtonAction, PauseButtonAction};
use screen_nav::navigator::{Control, Navigator};
use screen_nav::node::{NodeKind, ScreenTag};
use screen_nav::splash::SPLASH_NANOS;
use screen_nav::state::{CompositeState, GameState, MenuState, PauseState};
use screen_nav::ui::Frame;
use screen_nav::widgets::InteractionEvent;

fn state(game: GameState, menu: MenuState, pause: PauseState) -> CompositeState {
    CompositeState { game, menu, pause }
}

fn idle(delta: u64) -> Frame {
    Frame { delta, escape_just_pressed: false, events: vec![] }
}

fn escape() -> Frame {
    Frame { delta: 16_000_000, escape_just_pressed: true, events: vec![] }
}

fn button(nav: &Navigator, wanted: ButtonAction) -> usize {
    for id in 0..nav.ui().len() {
        if let Some(node) = nav.ui().get(id) {
            if let NodeKind::Button { action, .. } = node.kind {
                if action == wanted {
                    return id;
                }
            }
        }
    }
    panic!("no button carries {:?}", wanted)
}

fn press(nav: &Navigator, wanted: ButtonAction) -> Frame {
    let node = button(nav, wanted);
    Frame {
        delta: 16_000_000,
        escape_just_pressed: false,
        events: vec![InteractionEvent { node, interaction: Interaction::Pressed }],
    }
}

fn live(nav: &Navigator) -> Vec<usize> {
    (0..nav.ui().len()).filter(|&id| nav.ui().is_live(id)).collect()
}

fn tags_in_use(nav: &Navigator) -> Vec<ScreenTag> {
    let mut tags = vec![];
    for id in live(nav) {
        if let Some(tag) = nav.ui().get(id).unwrap().tag {
            if !tags.contains(&tag) {
                tags.push(tag);
            }
        }
    }
    tags
}

fn at_main_menu() -> Navigator {
    let mut nav = Navigator::new();
    assert_eq!(nav.tick(&idle(SPLASH_NANOS)), Ok(Control::Continue));
    nav
}

fn in_game() -> Navigator {
    let mut nav = at_main_menu();
    let frame = press(&nav, ButtonAction::Menu(MenuButtonAction::NewGame));
    assert_eq!(nav.tick(&frame), Ok(Control::Continue));
    nav
}

fn at_pause_menu() -> Navigator {
    let mut nav = in_game();
    assert_eq!(nav.tick(&escape()), Ok(Control::Continue));
    nav
}

#[test]
fn starts_on_the_splash_screen() {
    let nav = Navigator::new();
    assert_eq!(nav.state(), state(GameState::Splash, MenuState::Disabled, PauseState::Disabled));
    assert_eq!(live(&nav), vec![0, 1]);
    assert_eq!(tags_in_use(&nav), vec![ScreenTag::OnSplashScreen]);
    let timer = nav.timer().unwrap();
    assert_eq!(timer.elapsed(), 0);
    assert_eq!(timer.duration(), 2_000_000_000);
    assert!(!timer.is_finished());
}

#[test]
fn scenario_from_splash_to_title_and_back() {
    let mut nav = Navigator::new();
    assert_eq!(nav.state(), state(GameState::Splash, MenuState::Disabled, PauseState::Disabled));

    assert_eq!(nav.tick(&idle(2_000_000_000)), Ok(Control::Continue));
    assert_eq!(nav.state(), state(GameState::Menu, MenuState::MainMenu, PauseState::Disabled));

    let frame = press(&nav, ButtonAction::Menu(MenuButtonAction::NewGame));
    assert_eq!(nav.tick(&frame), Ok(Control::Continue));
    assert_eq!(nav.state(), state(GameState::Game, MenuState::Disabled, PauseState::Disabled));

    assert_eq!(nav.tick(&escape()), Ok(Control::Continue));
    assert_eq!(nav.state(), state(GameState::Pause, MenuState::Disabled, PauseState::PauseMenu));

    let frame = press(&nav, ButtonAction::Settings);
    assert_eq!(nav.tick(&frame), Ok(Control::Continue));
    assert_eq!(nav.state(), state(GameState::Pause, MenuState::Disabled, PauseState::Settings));

    assert_eq!(nav.tick(&escape()), Ok(Control::Continue));
    assert_eq!(nav.state(), state(GameState::Pause, MenuState::Disabled, PauseState::PauseMenu));

    let frame = press(&nav, ButtonAction::Pause(PauseButtonAction::QuitToTitle));
    assert_eq!(nav.tick(&frame), Ok(Control::Continue));
    assert_eq!(nav.state(), state(GameState::Menu, MenuState::MainMenu, PauseState::Disabled));
}

#[test]
fn splash_does_not_end_one_nanosecond_early() {
    let mut nav = Navigator::new();
    assert_eq!(nav.tick(&idle(1_999_999_999)), Ok(Control::Continue));
    assert_eq!(nav.state().game, GameState::Splash);
    assert_eq!(nav.timer().unwrap().elapsed(), 1_999_999_999);
    assert_eq!(nav.tick(&idle(1)), Ok(Control::Continue));
    assert_eq!(nav.state(), state(GameState::Menu, MenuState::MainMenu, PauseState::Disabled));
    assert_eq!(nav.timer(), None);
}

#[test]
fn splash_ends_on_the_tick_that_completes_two_seconds() {
    let mut nav = Navigator::new();
    for _ in 0..124 {
        assert_eq!(nav.tick(&idle(16_000_000)), Ok(Control::Continue));
        assert_eq!(nav.state().game, GameState::Splash);
    }
    assert_eq!(nav.timer().unwrap().elapsed(), 1_984_000_000);
    assert_eq!(nav.tick(&idle(16_000_000)), Ok(Control::Continue));
    assert_eq!(nav.state(), state(GameState::Menu, MenuState::MainMenu, PauseState::Disabled));
}

#[test]
fn splash_is_left_once_and_never_entered_again() {
    let mut nav = at_main_menu();
    let ids = nav.ui().len();
    for _ in 0..10 {
        assert_eq!(nav.tick(&idle(u64::MAX)), Ok(Control::Continue));
        assert_eq!(nav.state(), state(GameState::Menu, MenuState::MainMenu, PauseState::Disabled));
        assert_eq!(nav.timer(), None);
        assert_eq!(nav.ui().len(), ids);
    }
}

#[test]
fn a_tick_without_time_does_not_end_the_splash() {
    let mut nav = Navigator::new();
    assert_eq!(nav.tick(&idle(0)), Ok(Control::Continue));
    assert_eq!(nav.state().game, GameState::Splash);
    assert_eq!(nav.timer().unwrap().elapsed(), 0);
}

#[test]
fn escape_is_idle_on_the_splash_screen() {
    let mut nav = Navigator::new();
    let frame = Frame { delta: 5, escape_just_pressed: true, events: vec![] };
    assert_eq!(nav.tick(&frame), Ok(Control::Continue));
    assert_eq!(nav.state(), state(GameState::Splash, MenuState::Disabled, PauseState::Disabled));
    assert_eq!(live(&nav), vec![0, 1]);
    assert_eq!(nav.timer().unwrap().elapsed(), 5);
}

#[test]
fn escape_is_idle_on_the_main_menu() {
    let mut nav = at_main_menu();
    let before = nav.clone();
    assert_eq!(nav.tick(&escape()), Ok(Control::Continue));
    assert_eq!(nav.state(), before.state());
    assert_eq!(live(&nav), live(&before));
    for id in live(&nav) {
        assert_eq!(nav.ui().get(id), before.ui().get(id));
    }
}

#[test]
fn escape_pauses_the_game_and_resumes_it() {
    let mut nav = in_game();
    assert_eq!(live(&nav), Vec::<usize>::new());
    assert_eq!(nav.tick(&escape()), Ok(Control::Continue));
    assert_eq!(nav.state(), state(GameState::Pause, MenuState::Disabled, PauseState::PauseMenu));
    assert_eq!(live(&nav).len(), 10);
    assert_eq!(nav.tick(&escape()), Ok(Control::Continue));
    assert_eq!(nav.state(), state(GameState::Game, MenuState::Disabled, PauseState::Disabled));
    assert_eq!(live(&nav), Vec::<usize>::new());
}

#[test]
fn a_held_escape_key_does_not_repeat() {
    let mut nav = in_game();
    assert_eq!(nav.tick(&escape()), Ok(Control::Continue));
    assert_eq!(nav.state().game, GameState::Pause);
    for _ in 0..5 {
        assert_eq!(nav.tick(&idle(16_000_000)), Ok(Control::Continue));
        assert_eq!(nav.state(), state(GameState::Pause, MenuState::Disabled, PauseState::PauseMenu));
    }
}

#[test]
fn resume_leads_back_to_the_game() {
    let mut nav = at_pause_menu();
    let frame = press(&nav, ButtonAction::Pause(PauseButtonAction::Resume));
    assert_eq!(nav.tick(&frame), Ok(Control::Continue));
    assert_eq!(nav.state(), state(GameState::Game, MenuState::Disabled, PauseState::Disabled));
}

#[test]
fn menu_settings_and_back_by_button_and_by_escape() {
    let mut nav = at_main_menu();
    let frame = press(&nav, ButtonAction::Settings);
    assert_eq!(nav.tick(&frame), Ok(Control::Continue));
    assert_eq!(nav.state(), state(GameState::Menu, MenuState::Settings, PauseState::Disabled));
    assert_eq!(tags_in_use(&nav), vec![ScreenTag::OnSettingsMenuScreen]);
    assert_eq!(live(&nav).len(), 4);

    let frame = press(&nav, ButtonAction::Menu(MenuButtonAction::BackToMenu));
    assert_eq!(nav.tick(&frame), Ok(Control::Continue));
    assert_eq!(nav.state(), state(GameState::Menu, MenuState::MainMenu, PauseState::Disabled));
    assert_eq!(tags_in_use(&nav), vec![ScreenTag::OnMainMenuScreen]);

    let frame = press(&nav, ButtonAction::Settings);
    assert_eq!(nav.tick(&frame), Ok(Control::Continue));
    assert_eq!(nav.tick(&escape()), Ok(Control::Continue));
    assert_eq!(nav.state(), state(GameState::Menu, MenuState::MainMenu, PauseState::Disabled));
}

#[test]
fn pause_settings_leads_back_to_the_pause_menu_by_button() {
    let mut nav = at_pause_menu();
    let frame = press(&nav, ButtonAction::Settings);
    assert_eq!(nav.tick(&frame), Ok(Control::Continue));
    assert_eq!(nav.state(), state(GameState::Pause, MenuState::Disabled, PauseState::Settings));
    let frame = press(&nav, ButtonAction::Pause(PauseButtonAction::BackToMenu));
    assert_eq!(nav.tick(&frame), Ok(Control::Continue));
    assert_eq!(nav.state(), state(GameState::Pause, MenuState::Disabled, PauseState::PauseMenu));
}

#[test]
fn quit_on_the_main_menu_ends_the_process_and_moves_nothing() {
    let mut nav = at_main_menu();
    let before = nav.clone();
    let frame = press(&nav, ButtonAction::Quit);
    assert_eq!(nav.tick(&frame), Ok(Control::Exit));
    assert_eq!(nav.state(), before.state());
    assert_eq!(live(&nav), live(&before));
    assert_eq!(nav.timer(), None);
}

#[test]
fn quit_on_the_pause_menu_ends_the_process_and_moves_nothing() {
    let mut nav = at_pause_menu();
    let before = nav.clone();
    let frame = press(&nav, ButtonAction::Quit);
    assert_eq!(nav.tick(&frame), Ok(Control::Exit));
    assert_eq!(nav.state(), before.state());
    assert_eq!(live(&nav), live(&before));
}

#[test]
fn quit_wins_over_a_move_queued_in_the_same_tick() {
    let mut nav = at_main_menu();
    let frame = Frame {
        delta: 1,
        escape_just_pressed: false,
        events: vec![
            InteractionEvent {
                node: button(&nav, ButtonAction::Settings),
                interaction: Interaction::Pressed,
            },
            InteractionEvent {
                node: button(&nav, ButtonAction::Quit),
                interaction: Interaction::Pressed,
            },
        ],
    };
    assert_eq!(nav.tick(&frame), Ok(Control::Exit));
    assert_eq!(nav.state(), state(GameState::Menu, MenuState::MainMenu, PauseState::Disabled));
}

#[test]
fn the_last_request_of_a_tick_wins() {
    let mut nav = at_main_menu();
    let frame = Frame {
        delta: 1,
        escape_just_pressed: false,
        events: vec![
            InteractionEvent {
                node: button(&nav, ButtonAction::Settings),
                interaction: Interaction::Pressed,
            },
            InteractionEvent {
                node: button(&nav, ButtonAction::Menu(MenuButtonAction::NewGame)),
                interaction: Interaction::Pressed,
            },
        ],
    };
    assert_eq!(nav.tick(&frame), Ok(Control::Continue));
    assert_eq!(nav.state(), state(GameState::Game, MenuState::Disabled, PauseState::Disabled));

    let mut nav = at_pause_menu();
    let frame = Frame {
        delta: 1,
        escape_just_pressed: true,
        events: vec![InteractionEvent {
            node: button(&nav, ButtonAction::Settings),
            interaction: Interaction::Pressed,
        }],
    };
    assert_eq!(nav.tick(&frame), Ok(Control::Continue));
    assert_eq!(nav.state(), state(GameState::Game, MenuState::Disabled, PauseState::Disabled));
}

#[test]
fn the_state_is_read_as_it_was_before_the_tick() {
    // Both presses are looked up against the main menu, though the first
    // one asks for the settings screen, on which "New Game" would be a
    // wiring error.
    let mut nav = at_main_menu();
    let frame = Frame {
        delta: 1,
        escape_just_pressed: true,
        events: vec![InteractionEvent {
            node: button(&nav, ButtonAction::Settings),
            interaction: Interaction::Pressed,
        }],
    };
    // Escape is idle on the main menu, so the press stands.
    assert_eq!(nav.tick(&frame), Ok(Control::Continue));
    assert_eq!(nav.state(), state(GameState::Menu, MenuState::Settings, PauseState::Disabled));
}

#[test]
fn leaving_a_state_leaves_no_node_of_its_screen() {
    let mut nav = Navigator::new();
    assert_eq!(nav.tick(&idle(SPLASH_NANOS)), Ok(Control::Continue));
    assert_eq!(tags_in_use(&nav), vec![ScreenTag::OnMainMenuScreen]);
    assert!(!nav.ui().is_live(0));
    assert!(!nav.ui().is_live(1));
    let menu_ids = live(&nav);
    assert_eq!(menu_ids, (2..14).collect::<Vec<usize>>());

    let frame = press(&nav, ButtonAction::Menu(MenuButtonAction::NewGame));
    assert_eq!(nav.tick(&frame), Ok(Control::Continue));
    assert_eq!(live(&nav), Vec::<usize>::new());
    assert_eq!(nav.ui().len(), 14);

    assert_eq!(nav.tick(&escape()), Ok(Control::Continue));
    assert_eq!(tags_in_use(&nav), vec![ScreenTag::OnPauseMenuScreen]);
    let frame = press(&nav, ButtonAction::Settings);
    assert_eq!(nav.tick(&frame), Ok(Control::Continue));
    assert_eq!(tags_in_use(&nav), vec![ScreenTag::OnSettingsMenuScreen]);
    assert_eq!(live(&nav), (24..28).collect::<Vec<usize>>());
}

#[test]
fn events_on_what_is_no_button_are_passed_over() {
    let mut nav = at_main_menu();
    let before = nav.clone();
    let frame = Frame {
        delta: 1,
        escape_just_pressed: false,
        events: vec![
            // a node of the splash screen, long gone
            InteractionEvent { node: 0, interaction: Interaction::Pressed },
            // the container of the main menu
            InteractionEvent { node: 2, interaction: Interaction::Pressed },
            // the label of a button
            InteractionEvent { node: 5, interaction: Interaction::Pressed },
            // an id that was never handed out
            InteractionEvent { node: 1000, interaction: Interaction::Pressed },
        ],
    };
    assert_eq!(nav.tick(&frame), Ok(Control::Continue));
    assert_eq!(nav.state(), before.state());
    for id in 0..nav.ui().len() {
        assert_eq!(nav.ui().get(id), before.ui().get(id));
    }
}

#[test]
fn hovering_a_button_moves_nothing() {
    let mut nav = at_main_menu();
    let node = button(&nav, ButtonAction::Menu(MenuButtonAction::NewGame));
    let frame = Frame {
        delta: 1,
        escape_just_pressed: false,
        events: vec![InteractionEvent { node, interaction: Interaction::Hovered }],
    };
    assert_eq!(nav.tick(&frame), Ok(Control::Continue));
    assert_eq!(nav.state(), state(GameState::Menu, MenuState::MainMenu, PauseState::Disabled));
}
