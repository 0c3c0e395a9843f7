//! The screens taken together: what one tick queues, and the hooks that run
//! when the composite state changes.

use vstd::prelude::*;
use crate::action::{transition, NavError, Requests, Trigger};
use crate::escape::pause_menu_listener_sys;
use crate::main_menu::MenuPlugin;
use crate::pause::PausePlugin;
use crate::splash::{SplashPlugin, SplashTimer, TimerModel, SPLASH_NANOS};
use crate::state::{CompositeState, GameState};
use crate::tree::{Slots, UiTree};
use crate::widgets::{recolored_by, resolved, routed, InteractionEvent};

verus! {

/// What happened since the last tick.
#[derive(Clone, Debug)]
pub struct Frame {
    /// Time since the last tick, in nanoseconds.
    pub delta: u64,
    /// Whether the escape key went down in this tick. A key that is held
    /// does not count again.
    pub escape_just_pressed: bool,
    /// The UI elements whose interaction changed, each with its new
    /// interaction.
    pub events: Vec<InteractionEvent>,
}

/// All screens of the application as one plugin.
pub struct UiPlugin;

impl UiPlugin {
    /// What the systems of one tick queue in the state `s`, on top of
    /// `queued`: on the splash screen the end of the countdown, in the game
    /// the escape key, on the screens with buttons the presses and then the
    /// escape key.
    pub open spec fn queued(
        s: CompositeState,
        ui: Slots,
        timer: Option<TimerModel>,
        delta: nat,
        escape_just_pressed: bool,
        events: Seq<InteractionEvent>,
        queued: Requests,
    ) -> Result<Requests, NavError> {
        match s.game {
            GameState::Splash => if timer is Some && timer->0.just_finishes(delta) {
                Ok(queued.after(transition(s, Trigger::TimerElapsed)->0))
            } else {
                Ok(queued)
            },
            GameState::Game => routed(true, s, Seq::empty(), escape_just_pressed, queued),
            _ => routed(true, s, resolved(ui, events), escape_just_pressed, queued),
        }
    }

    /// The arena after the systems of one tick: the buttons that the events
    /// name have the colours of their interactions.
    pub open spec fn updated(s: CompositeState, ui: Slots, events: Seq<InteractionEvent>) -> Slots {
        if s.game == GameState::Menu || s.game == GameState::Pause {
            recolored_by(ui, events)
        } else {
            ui
        }
    }

    /// The countdown after the systems of one tick.
    pub open spec fn counted(s: CompositeState, timer: Option<TimerModel>, delta: nat) -> Option<
        TimerModel,
    > {
        if s.game == GameState::Splash && timer is Some {
            Some(timer->0.tick(delta))
        } else {
            timer
        }
    }

    /// The arena after the exit hooks of all screens for the change from
    /// `from` to `to`.
    pub open spec fn exited(s: Slots, from: CompositeState, to: CompositeState) -> Slots {
        PausePlugin::exited(
            MenuPlugin::exited(SplashPlugin::exited(s, from, to), from, to),
            from,
            to,
        )
    }

    /// The arena after the enter hooks of all screens for the change from
    /// `from` to `to`.
    pub open spec fn entered(s: Slots, from: CompositeState, to: CompositeState) -> Result<
        Slots,
        NavError,
    > {
        match MenuPlugin::entered(SplashPlugin::entered(s, from, to), from, to) {
            Ok(s1) => PausePlugin::entered(s1, from, to),
            Err(e) => Err(e),
        }
    }

    /// Runs the systems of one tick against the current state. They read
    /// the state and write only the queue. On an error nothing has been
    /// queued.
    pub fn update(
        state: &CompositeState,
        ui: &mut UiTree,
        timer: &mut Option<SplashTimer>,
        frame: &Frame,
        requests: &mut Requests,
    ) -> (r: Result<(), NavError>)
        requires
            old(ui).wf(),
        ensures
            final(ui).wf(),
            final(ui)@ == UiPlugin::updated(*state, old(ui)@, frame.events@),
            *final(timer) is Some <==> *old(timer) is Some,
            timer_view(*final(timer)) == UiPlugin::counted(
                *state,
                timer_view(*old(timer)),
                frame.delta as nat,
            ),
            match UiPlugin::queued(
                *state,
                old(ui)@,
                timer_view(*old(timer)),
                frame.delta as nat,
                frame.escape_just_pressed,
                frame.events@,
                *old(requests),
            ) {
                Ok(queued) => r is Ok && *final(requests) == queued,
                Err(e) => r == Err::<(), NavError>(e) && *final(requests) == *old(requests),
            },
    {
        SplashPlugin::update(frame.delta, state, timer, requests);
        MenuPlugin::update(state, ui, &frame.events, frame.escape_just_pressed, requests)?;
        PausePlugin::update(state, ui, &frame.events, frame.escape_just_pressed, requests)?;
        if state.game == GameState::Game {
            pause_menu_listener_sys(frame.escape_just_pressed, state, requests)?;
        }
        Ok(())
    }

    /// Runs the exit hooks of all screens for the change from `from` to
    /// `to`.
    pub fn exit(
        from: &CompositeState,
        to: &CompositeState,
        ui: &mut UiTree,
        timer: &mut Option<SplashTimer>,
    )
        requires
            old(ui).wf(),
        ensures
            final(ui).wf(),
            final(ui)@ == UiPlugin::exited(old(ui)@, *from, *to),
            *final(timer) == (if SplashPlugin::leaves(*from, *to) {
                None
            } else {
                *old(timer)
            }),
    {
        SplashPlugin::exit(from, to, ui, timer);
        MenuPlugin::exit(from, to, ui);
        PausePlugin::exit(from, to, ui);
    }

    /// Runs the enter hooks of all screens for the change from `from` to
    /// `to`. A hook that fails ends the run with its error; what the hooks
    /// before it have built stays.
    pub fn enter(
        from: &CompositeState,
        to: &CompositeState,
        ui: &mut UiTree,
        timer: &mut Option<SplashTimer>,
    ) -> (r: Result<(), NavError>)
        requires
            old(ui).wf(),
        ensures
            final(ui).wf(),
            match UiPlugin::entered(old(ui)@, *from, *to) {
                Ok(s) => r is Ok && final(ui)@ == s,
                Err(e) => r == Err::<(), NavError>(e) && final(ui)@ == (match MenuPlugin::entered(
                    SplashPlugin::entered(old(ui)@, *from, *to),
                    *from,
                    *to,
                ) {
                    Ok(s1) => s1,
                    Err(_) => SplashPlugin::entered(old(ui)@, *from, *to),
                }),
            },
            SplashPlugin::arrives(*from, *to) ==> *final(timer) is Some && final(timer)->0@
                == TimerModel::fresh(SPLASH_NANOS as nat),
            !SplashPlugin::arrives(*from, *to) ==> *final(timer) == *old(timer),
    {
        SplashPlugin::enter(from, to, ui, timer);
        MenuPlugin::enter(from, to, ui)?;
        PausePlugin::enter(from, to, ui)
    }
}

/// The model of a countdown that may be absent.
pub open spec fn timer_view(timer: Option<SplashTimer>) -> Option<TimerModel> {
    match timer {
        Some(t) => Some(t@),
        None => None,
    }
}

} // verus!
